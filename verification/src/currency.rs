//! `CurrencyId`: the runtime's identifier of a currency, a transparent `u128`.

use vstd::prelude::*;
use vstd::std_specs::convert::FromSpec;
use vstd::std_specs::ops::DivSpec;

verus! {

/// Exponent of a currency's unit (number of decimals).
pub type Exponent = u32;

/// Identifier of a currency in the runtime.
#[derive(Copy, Clone, Debug, PartialEq, Eq, Structural, PartialOrd, Ord, Hash)]
pub struct CurrencyId(pub u128);

/// Number of decimals every currency of the runtime has.
pub open spec fn currency_decimals() -> nat {
    12
}

/// The number of smallest parts in one unit of a currency: `10^decimals`.
pub open spec fn currency_unit() -> nat {
    ten_pow(currency_decimals())
}

impl CurrencyId {
    /// The invalid currency, `0`, also the default.
    pub fn invalid() -> (r: CurrencyId)
        ensures r.0 == 0,
    {
        CurrencyId(0)
    }

    /// PICA, the native token, `1`.
    pub fn pica() -> (r: CurrencyId)
        ensures r.0 == 1,
    {
        CurrencyId(1)
    }

    /// LAYR, `2`.
    pub fn layr() -> (r: CurrencyId)
        ensures r.0 == 2,
    {
        CurrencyId(2)
    }

    /// The crowdloan reward token, `3`.
    pub fn crowd_loan() -> (r: CurrencyId)
        ensures r.0 == 3,
    {
        CurrencyId(3)
    }

    /// KSM, the relay chain token, `4`.
    pub fn ksm() -> (r: CurrencyId)
        ensures r.0 == 4,
    {
        CurrencyId(4)
    }

    /// Number of decimals of the currency.
    pub fn decimals(&self) -> (r: Exponent)
        ensures
            r == currency_decimals(),
    {
        12
    }

    /// One unit of the currency, `10^decimals`, converted into `T`.
    pub fn unit<T: From<u64>>(&self) -> (r: T)
        ensures
            call_ensures(T::from, (currency_unit() as u64,), r),
            T::obeys_from_spec() ==> r == T::from_spec(currency_unit() as u64),
    {
        let u = ten_pow_u64(self.decimals());
        T::from(u)
    }

    /// One thousandth of a unit of the currency, converted into `T`: the unit
    /// divided by a thousand, both converted into `T` first. The division
    /// must be defined on what the conversions give.
    pub fn milli<T: From<u64> + core::ops::Div<Output = T>>(&self) -> (r: T)
        requires
            forall|u: T, d: T|
                call_ensures(T::from, (currency_unit() as u64,), u) && call_ensures(
                    T::from,
                    (1000u64,),
                    d,
                ) ==> #[trigger] u.div_req(d),
        ensures
            exists|u: T, d: T|
                #![trigger call_ensures(T::from, (currency_unit() as u64,), u), call_ensures(T::from, (1000u64,), d)]
                {
                    &&& call_ensures(T::from, (currency_unit() as u64,), u)
                    &&& call_ensures(T::from, (1000u64,), d)
                    &&& T::obeys_div_spec() ==> r == u.div_spec(d)
                },
            T::obeys_from_spec() && T::obeys_div_spec() ==> r == T::from_spec(
                currency_unit() as u64,
            ).div_spec(T::from_spec(1000u64)),
    {
        let u = self.unit::<T>();
        let d = T::from(1000u64);
        <T as core::ops::Div>::div(u, d)
    }

    /// `self + rhs` on the raw identifiers.
    pub fn checked_add(&self, v: &Self) -> (r: Option<Self>)
        ensures
            r == (if self.0 + v.0 <= u128::MAX {
                Some(CurrencyId((self.0 + v.0) as u128))
            } else {
                None
            }),
    {
        match self.0.checked_add(v.0) {
            Some(x) => Some(CurrencyId(x)),
            None => None,
        }
    }

    /// `self * rhs` on the raw identifiers.
    pub fn checked_mul(&self, v: &Self) -> (r: Option<Self>)
        ensures
            r == (if self.0 * v.0 <= u128::MAX {
                Some(CurrencyId((self.0 * v.0) as u128))
            } else {
                None
            }),
    {
        match self.0.checked_mul(v.0) {
            Some(x) => Some(CurrencyId(x)),
            None => None,
        }
    }

    /// The identifier `0`.
    pub fn zero() -> (r: Self)
        ensures
            r.0 == 0,
    {
        CurrencyId(0)
    }

    /// Whether the identifier is `0`.
    pub fn is_zero(&self) -> (r: bool)
        ensures
            r == (self.0 == 0),
    {
        self.0 == 0
    }

    /// The identifier `1`.
    pub fn one() -> (r: Self)
        ensures
            r.0 == 1,
    {
        CurrencyId(1)
    }

    /// The smallest identifier.
    pub fn min_value() -> (r: Self)
        ensures
            r.0 == 0,
    {
        CurrencyId(0)
    }

    /// The largest identifier.
    pub fn max_value() -> (r: Self)
        ensures
            r.0 == u128::MAX,
    {
        CurrencyId(u128::MAX)
    }

    /// `self + rhs`, saturating at `u128::MAX`.
    pub fn saturating_add(self, rhs: Self) -> (r: Self)
        ensures
            r.0 == (if self.0 + rhs.0 <= u128::MAX {
                (self.0 + rhs.0) as u128
            } else {
                u128::MAX
            }),
    {
        CurrencyId(self.0.saturating_add(rhs.0))
    }

    /// `self - rhs`, saturating at `0`.
    pub fn saturating_sub(self, rhs: Self) -> (r: Self)
        ensures
            r.0 == (if self.0 >= rhs.0 {
                (self.0 - rhs.0) as u128
            } else {
                0
            }),
    {
        CurrencyId(self.0.saturating_sub(rhs.0))
    }

    /// `self * rhs`, saturating at `u128::MAX`.
    pub fn saturating_mul(self, rhs: Self) -> (r: Self)
        ensures
            r.0 == (if self.0 * rhs.0 <= u128::MAX {
                (self.0 * rhs.0) as u128
            } else {
                u128::MAX
            }),
    {
        CurrencyId(saturating_mul_u128(self.0, rhs.0))
    }

    /// `self ^ exp`, saturating at `u128::MAX`.
    pub fn saturating_pow(self, exp: usize) -> (r: Self)
        ensures
            r.0 == (if pow_nat(self.0 as nat, exp as nat) <= u128::MAX {
                pow_nat(self.0 as nat, exp as nat) as u128
            } else {
                u128::MAX
            }),
    {
        CurrencyId(saturating_pow_u128(self.0, exp))
    }

    /// The identifier written in lower-case hexadecimal, without prefix.
    pub fn to_lower_hex(&self) -> (r: String)
        ensures
            r@ == lower_hex_digits(self.0 as nat),
    {
        format_lower_hex(self.0)
    }
}

impl Default for CurrencyId {
    /// The invalid currency.
    fn default() -> (r: Self)
        ensures
            r.0 == 0,
    {
        CurrencyId(0)
    }
}

impl core::ops::Deref for CurrencyId {
    type Target = u128;

    fn deref(&self) -> (r: &u128)
        ensures
            *r == self.0,
    {
        &self.0
    }
}

impl From<CurrencyId> for u128 {
    fn from(id: CurrencyId) -> (r: u128) {
        id.0
    }
}

impl vstd::std_specs::convert::FromSpecImpl<CurrencyId> for u128 {
    open spec fn obeys_from_spec() -> bool {
        true
    }

    open spec fn from_spec(id: CurrencyId) -> u128 {
        id.0
    }
}

impl From<u128> for CurrencyId {
    fn from(raw: u128) -> (r: CurrencyId) {
        CurrencyId(raw)
    }
}

impl vstd::std_specs::convert::FromSpecImpl<u128> for CurrencyId {
    open spec fn obeys_from_spec() -> bool {
        true
    }

    open spec fn from_spec(raw: u128) -> CurrencyId {
        CurrencyId(raw)
    }
}

impl core::ops::Add for CurrencyId {
    type Output = CurrencyId;

    fn add(self, rhs: Self) -> (r: CurrencyId) {
        CurrencyId(self.0 + rhs.0)
    }
}

impl vstd::std_specs::ops::AddSpecImpl for CurrencyId {
    open spec fn obeys_add_spec() -> bool {
        true
    }

    open spec fn add_req(self, rhs: CurrencyId) -> bool {
        self.0 + rhs.0 <= u128::MAX
    }

    open spec fn add_spec(self, rhs: CurrencyId) -> CurrencyId {
        CurrencyId((self.0 + rhs.0) as u128)
    }
}

impl core::ops::Mul for CurrencyId {
    type Output = CurrencyId;

    fn mul(self, rhs: Self) -> (r: CurrencyId) {
        CurrencyId(self.0 * rhs.0)
    }
}

impl vstd::std_specs::ops::MulSpecImpl for CurrencyId {
    open spec fn obeys_mul_spec() -> bool {
        true
    }

    open spec fn mul_req(self, rhs: CurrencyId) -> bool {
        self.0 * rhs.0 <= u128::MAX
    }

    open spec fn mul_spec(self, rhs: CurrencyId) -> CurrencyId {
        CurrencyId((self.0 * rhs.0) as u128)
    }
}

/// `b^e` over the naturals.
pub open spec fn pow_nat(b: nat, e: nat) -> nat
    decreases e,
{
    if e == 0 {
        1
    } else {
        b * pow_nat(b, (e - 1) as nat)
    }
}

/// Lower-case hexadecimal digits of `n`, most significant first, `"0"` for zero.
pub open spec fn lower_hex_digits(n: nat) -> Seq<char>
    decreases n,
{
    if n < 16 {
        seq![hex_digit(n)]
    } else {
        lower_hex_digits(n / 16).push(hex_digit(n % 16))
    }
}

/// The lower-case hexadecimal digit of `d < 16`.
pub open spec fn hex_digit(d: nat) -> char {
    if d < 10 {
        (('0' as nat) + d) as char
    } else {
        (('a' as nat) + (d - 10)) as char
    }
}

/// std's `LowerHex` formatting of a `u128`.
///
/// Trusted: `format!("{:x}", n)` writes the lower-case hexadecimal digits of
/// `n` without prefix or padding, as std's documentation of `LowerHex` says.
#[verifier::external_body]
fn format_lower_hex(n: u128) -> (r: String)
    ensures
        r@ == lower_hex_digits(n as nat),
{
    format!("{:x}", n)
}

/// `a * b` saturating at `u128::MAX`.
fn saturating_mul_u128(a: u128, b: u128) -> (r: u128)
    ensures
        r == (if a * b <= u128::MAX { (a * b) as u128 } else { u128::MAX }),
{
    match a.checked_mul(b) {
        Some(x) => x,
        None => u128::MAX,
    }
}

/// `pow_nat` only grows with the exponent when the base is positive.
proof fn lemma_pow_nat_grows(b: nat, e: nat, f: nat)
    requires
        b >= 1,
        e <= f,
    ensures
        pow_nat(b, e) <= pow_nat(b, f),
        pow_nat(b, e) >= 1,
    decreases f,
{
    if f > 0 && e < f {
        lemma_pow_nat_grows(b, e, (f - 1) as nat);
        assert(pow_nat(b, (f - 1) as nat) <= b * pow_nat(b, (f - 1) as nat)) by (nonlinear_arith)
            requires b >= 1, pow_nat(b, (f - 1) as nat) >= 1;
    } else if f > 0 {
        lemma_pow_nat_grows(b, (f - 1) as nat, (f - 1) as nat);
        assert(b * pow_nat(b, (f - 1) as nat) >= 1) by (nonlinear_arith)
            requires b >= 1, pow_nat(b, (f - 1) as nat) >= 1;
    }
}

/// `b^e` saturating at `u128::MAX`, by repeated multiplication.
fn saturating_pow_u128(b: u128, e: usize) -> (r: u128)
    ensures
        r == (if pow_nat(b as nat, e as nat) <= u128::MAX {
            pow_nat(b as nat, e as nat) as u128
        } else {
            u128::MAX
        }),
{
    if b <= 1 {
        proof {
            lemma_pow_nat_small(b as nat, e as nat);
        }
        if e == 0 {
            return 1;
        }
        return b;
    }
    let mut acc: u128 = 1;
    let mut i: usize = 0;
    while i < e
        invariant
            b >= 2,
            i <= e,
            acc == pow_nat(b as nat, i as nat),
        decreases e - i,
    {
        match acc.checked_mul(b) {
            Some(x) => {
                acc = x;
                i = i + 1;
            },
            None => {
                proof {
                    lemma_pow_nat_grows(b as nat, (i + 1) as nat, e as nat);
                    assert(pow_nat(b as nat, (i + 1) as nat) == b * pow_nat(b as nat, i as nat));
                    assert(b * acc == acc * b) by (nonlinear_arith);
                }
                return u128::MAX;
            },
        }
    }
    acc
}

/// `0^e` and `1^e`.
proof fn lemma_pow_nat_small(b: nat, e: nat)
    requires
        b <= 1,
    ensures
        pow_nat(b, e) == (if e == 0 { 1 } else { b }),
    decreases e,
{
    if e > 0 {
        lemma_pow_nat_small(b, (e - 1) as nat);
        assert(b * b == b) by (nonlinear_arith)
            requires b <= 1;
    }
}

/// `10^n`.
pub open spec fn ten_pow(n: nat) -> nat
    decreases n,
{
    if n == 0 {
        1
    } else {
        10 * ten_pow((n - 1) as nat)
    }
}

/// `ten_pow` grows with its exponent.
proof fn lemma_ten_pow_monotone(i: nat, j: nat)
    requires
        i <= j,
    ensures
        ten_pow(i) <= ten_pow(j),
    decreases j - i,
{
    if i < j {
        lemma_ten_pow_monotone(i, (j - 1) as nat);
    }
}

/// `10^e` computed in `u64`; `e` is at most 19, where it still fits.
fn ten_pow_u64(e: u32) -> (r: u64)
    requires
        e <= 19,
    ensures
        r == ten_pow(e as nat),
{
    let mut r: u64 = 1;
    let mut i: u32 = 0;
    while i < e
        invariant
            i <= e <= 19,
            r == ten_pow(i as nat),
        decreases e - i,
    {
        proof {
            lemma_ten_pow_monotone((i + 1) as nat, 19);
            reveal_with_fuel(ten_pow, 20);
            assert(ten_pow(19) == 10_000_000_000_000_000_000);
        }
        r = r * 10;
        i = i + 1;
    }
    r
}

/// `From<T> for T` of std, which its documentation says returns the
/// argument unchanged.
pub assume_specification<A>[ <A as std::convert::From<A>>::from ](t: A) -> (r: A)
    ensures
        r == t,
;

} // verus!
