//! Fixed-point fractions and the arithmetic errors of the runtime.
//!
//! `Permill` is a fraction in parts per million; the rounding operations that
//! the pallets use are computed by `sp_arithmetic`.

use vstd::prelude::*;
use sp_arithmetic::traits::{CheckedMul, CheckedSub};
use sp_arithmetic::PerThing;

verus! {

/// Arithmetic failures, as the runtime reports them.
#[derive(Copy, Clone, Debug, PartialEq, Eq, Structural)]
pub enum ArithmeticError {
    Underflow,
    Overflow,
    DivisionByZero,
}

/// Number of parts in a whole `Permill`.
pub const PERMILL_ACCURACY: u32 = 1_000_000;

/// A fraction in parts per million, `0 ..= 1_000_000` parts.
#[derive(Copy, Clone, Debug, PartialEq, Eq, Structural, PartialOrd, Ord, Hash)]
pub struct Permill {
    parts: u32,
}

impl View for Permill {
    type V = u32;

    /// The number of parts per million.
    closed spec fn view(&self) -> u32 {
        self.parts
    }
}

/// `ceil(x / d)` for `d > 0`.
pub open spec fn div_ceil(x: nat, d: nat) -> nat
    recommends
        d > 0,
{
    if x % d > 0 {
        x / d + 1
    } else {
        x / d
    }
}

/// The parts of `Permill::from_rational(p, q)` as `sp_arithmetic` computes them:
/// `q` is raised to at least 1, `p` lowered to at most `q`, both are divided by
/// `max(ceil(q / 10^6), 1)` so that they fit, and the result is
/// `floor(p' * 10^6 / q')`.
pub open spec fn permill_from_rational_parts(p: nat, q: nat) -> nat {
    let q1: nat = if q < 1 { 1 } else { q };
    let p1: nat = if p < q1 { p } else { q1 };
    let c = div_ceil(q1, PERMILL_ACCURACY as nat);
    let factor: nat = if c < 1 { 1 } else { c };
    let q_reduce: nat = q1 / factor;
    let p_reduce: nat = p1 / factor;
    (p_reduce * (PERMILL_ACCURACY as nat)) / q_reduce
}

/// The parts of the product of two `Permill`s: `floor(a * b / 10^6)`.
pub open spec fn permill_mul_parts(a: nat, b: nat) -> nat {
    (a * b) / (PERMILL_ACCURACY as nat)
}

/// `permill_from_rational_parts` never exceeds a whole.
pub proof fn lemma_from_rational_bounded(p: nat, q: nat)
    ensures
        permill_from_rational_parts(p, q) <= PERMILL_ACCURACY,
        q >= 1 && p >= q ==> permill_from_rational_parts(p, q) == PERMILL_ACCURACY,
        p == 0 ==> permill_from_rational_parts(p, q) == 0,
{
    let m = PERMILL_ACCURACY as nat;
    let q1: nat = if q < 1 { 1 } else { q };
    let p1: nat = if p < q1 { p } else { q1 };
    let c = div_ceil(q1, m);
    let factor: nat = if c < 1 { 1 } else { c };
    let q_reduce: nat = q1 / factor;
    let p_reduce: nat = p1 / factor;
    lemma_reduced_positive(q1, m);
    assert(p_reduce <= q_reduce) by {
        vstd::arithmetic::div_mod::lemma_div_is_ordered(p1 as int, q1 as int, factor as int);
    }
    assert(q_reduce > 0);
    assert((p_reduce * m) / q_reduce <= m) by {
        assert(p_reduce * m <= q_reduce * m) by (nonlinear_arith)
            requires p_reduce <= q_reduce;
        vstd::arithmetic::div_mod::lemma_div_is_ordered((p_reduce * m) as int, (q_reduce * m) as int, q_reduce as int);
        vstd::arithmetic::div_mod::lemma_div_by_multiple(m as int, q_reduce as int);
        assert(q_reduce * m == m * q_reduce) by (nonlinear_arith);
    }
    if q >= 1 && p >= q {
        assert(p_reduce == q_reduce);
        vstd::arithmetic::div_mod::lemma_div_by_multiple(m as int, q_reduce as int);
        assert(q_reduce * m == m * q_reduce) by (nonlinear_arith);
    }
    if p == 0 {
        assert(p_reduce == 0) by {
            vstd::arithmetic::div_mod::lemma_div_of0(factor as int);
        }
    }
}

/// Dividing `q >= 1` by `max(ceil(q / m), 1)` leaves a positive number.
pub proof fn lemma_reduced_positive(q: nat, m: nat)
    requires
        q >= 1,
        m >= 1,
    ensures
        ({
            let c = div_ceil(q, m);
            let factor: nat = if c < 1 { 1 } else { c };
            factor >= 1 && q / factor >= 1
        }),
{
    let c = div_ceil(q, m);
    let factor: nat = if c < 1 { 1 } else { c };
    vstd::arithmetic::div_mod::lemma_fundamental_div_mod(q as int, m as int);
    if c >= 1 {
        // factor = ceil(q / m) <= q since m >= 1
        assert(factor <= q) by {
            if q % m > 0 {
                vstd::arithmetic::div_mod::lemma_div_is_ordered_by_denominator(q as int, 1, m as int);
                assert(q / m <= q / 1);
                if q / m == q {
                    // q = m * q + r with r > 0 forces m * q < q, impossible
                    assert(m * (q / m) >= q) by (nonlinear_arith)
                        requires m >= 1, q / m == q;
                }
            } else {
                vstd::arithmetic::div_mod::lemma_div_is_ordered_by_denominator(q as int, 1, m as int);
            }
        }
        vstd::arithmetic::div_mod::lemma_div_is_ordered(factor as int, q as int, factor as int);
        vstd::arithmetic::div_mod::lemma_div_by_self(factor as int);
    }
}

/// `Permill::from_rational` in `sp_arithmetic`, for `u64` numbers.
///
/// Trusted: returns the parts that `permill_from_rational_parts` states, as the
/// source of `sp_arithmetic`'s `from_rational` computes them, without panicking.
#[verifier::external_body]
fn sp_permill_from_rational(p: u64, q: u64) -> (r: u32)
    ensures
        r == permill_from_rational_parts(p as nat, q as nat),
{
    <sp_arithmetic::Permill as PerThing>::from_rational(p, q).deconstruct()
}

/// `CheckedMul::checked_mul` of two `Permill`s in `sp_arithmetic`.
///
/// Trusted: the source returns `Some` of `floor(a * b / 10^6)` parts for any two
/// valid `Permill`s.
#[verifier::external_body]
fn sp_permill_checked_mul(a: u32, b: u32) -> (r: Option<u32>)
    requires
        a <= PERMILL_ACCURACY,
        b <= PERMILL_ACCURACY,
    ensures
        r == Some(permill_mul_parts(a as nat, b as nat) as u32),
{
    let a = sp_arithmetic::Permill::from_parts(a);
    let b = sp_arithmetic::Permill::from_parts(b);
    a.checked_mul(&b).map(|x| x.deconstruct())
}

/// `CheckedSub::checked_sub` of two `Permill`s in `sp_arithmetic`.
///
/// Trusted: the source subtracts the parts, `None` when `b > a`.
#[verifier::external_body]
fn sp_permill_checked_sub(a: u32, b: u32) -> (r: Option<u32>)
    requires
        a <= PERMILL_ACCURACY,
        b <= PERMILL_ACCURACY,
    ensures
        r == (if b <= a { Some((a - b) as u32) } else { None::<u32> }),
{
    let a = sp_arithmetic::Permill::from_parts(a);
    let b = sp_arithmetic::Permill::from_parts(b);
    a.checked_sub(&b).map(|x| x.deconstruct())
}

impl Permill {
    /// A `Permill` is never more than a whole.
    #[verifier::type_invariant]
    pub open spec fn inv(self) -> bool {
        self@ <= PERMILL_ACCURACY
    }

    /// From a number of parts, clamped to a whole.
    pub fn from_parts(parts: u32) -> (r: Permill)
        ensures
            r@ == (if parts <= PERMILL_ACCURACY { parts } else { PERMILL_ACCURACY }),
    {
        if parts <= PERMILL_ACCURACY {
            Permill { parts }
        } else {
            Permill { parts: PERMILL_ACCURACY }
        }
    }

    /// The whole, 1_000_000 parts.
    pub fn one() -> (r: Permill)
        ensures
            r@ == PERMILL_ACCURACY,
    {
        Permill { parts: PERMILL_ACCURACY }
    }

    /// Nothing, 0 parts.
    pub fn zero() -> (r: Permill)
        ensures
            r@ == 0,
    {
        Permill { parts: 0 }
    }

    /// The number of parts.
    pub fn deconstruct(&self) -> (r: u32)
        ensures
            r == self@,
            r <= PERMILL_ACCURACY,
    {
        proof {
            use_type_invariant(self);
        }
        self.parts
    }

    /// The fraction `p / q`, as `sp_arithmetic` approximates it.
    pub fn from_rational(p: u64, q: u64) -> (r: Permill)
        ensures
            r@ == permill_from_rational_parts(p as nat, q as nat),
    {
        proof {
            lemma_from_rational_bounded(p as nat, q as nat);
        }
        Permill { parts: sp_permill_from_rational(p, q) }
    }

    /// `self - v`, `None` when `v` is larger.
    pub fn checked_sub(&self, v: &Permill) -> (r: Option<Permill>)
        ensures
            match r {
                Some(d) => v@ <= self@ && d@ == self@ - v@,
                None => v@ > self@,
            },
    {
        proof {
            use_type_invariant(self);
            use_type_invariant(v);
        }
        match sp_permill_checked_sub(self.parts, v.parts) {
            Some(parts) => Some(Permill { parts }),
            None => None,
        }
    }

    /// `self * v`, rounded down to whole parts; always `Some`.
    pub fn checked_mul(&self, v: &Permill) -> (r: Option<Permill>)
        ensures
            match r {
                Some(m) => m@ == permill_mul_parts(self@ as nat, v@ as nat),
                None => false,
            },
    {
        proof {
            use_type_invariant(self);
            use_type_invariant(v);
            let a = self.parts as nat;
            let b = v.parts as nat;
            assert(a * b <= (PERMILL_ACCURACY as nat) * (PERMILL_ACCURACY as nat)) by (nonlinear_arith)
                requires a <= PERMILL_ACCURACY, b <= PERMILL_ACCURACY;
            vstd::arithmetic::div_mod::lemma_div_is_ordered((a * b) as int,
                ((PERMILL_ACCURACY as nat) * (PERMILL_ACCURACY as nat)) as int, PERMILL_ACCURACY as int);
            vstd::arithmetic::div_mod::lemma_div_by_multiple(PERMILL_ACCURACY as int, PERMILL_ACCURACY as int);
        }
        match sp_permill_checked_mul(self.parts, v.parts) {
            Some(parts) => Some(Permill { parts }),
            None => None,
        }
    }
}

/// A fraction in parts per quintillion, `0 ..= 10^18` parts.
#[derive(Copy, Clone, Debug, PartialEq, Eq, Structural, PartialOrd, Ord, Hash)]
pub struct Perquintill {
    parts: u64,
}

impl View for Perquintill {
    type V = u64;

    /// The number of parts per quintillion.
    closed spec fn view(&self) -> u64 {
        self.parts
    }
}

impl Perquintill {
    /// A `Perquintill` is never more than a whole.
    #[verifier::type_invariant]
    pub open spec fn inv(self) -> bool {
        self@ <= 1_000_000_000_000_000_000
    }

    /// From a number of parts, clamped to a whole.
    pub fn from_parts(parts: u64) -> (r: Perquintill)
        ensures
            r@ == (if parts <= 1_000_000_000_000_000_000 {
                parts
            } else {
                1_000_000_000_000_000_000
            }),
    {
        if parts <= 1_000_000_000_000_000_000 {
            Perquintill { parts }
        } else {
            Perquintill { parts: 1_000_000_000_000_000_000 }
        }
    }

    /// The number of parts.
    pub fn deconstruct(&self) -> (r: u64)
        ensures
            r == self@,
    {
        self.parts
    }
}

} // verus!
