//! The currency identifiers of the lending pallet's test runtime.

use vstd::prelude::*;
use crate::arithmetic::ArithmeticError;
use crate::dispatch::DispatchError;

verus! {

/// A currency of the test runtime; liquidity-provider tokens are numbered.
#[derive(Copy, Clone, Debug, PartialEq, Eq, Structural, PartialOrd, Ord)]
pub enum MockCurrencyId {
    PICA,
    BTC,
    ETH,
    LTC,
    USDT,
    LpToken(u128),
}

impl MockCurrencyId {
    /// The currency numbered `id`, for `id` in `0 ..= 5`; `5` is the first
    /// liquidity-provider token.
    pub fn from(id: u128) -> (r: MockCurrencyId)
        requires
            id <= 5,
        ensures
            r == (match id {
                0 => MockCurrencyId::PICA,
                1 => MockCurrencyId::BTC,
                2 => MockCurrencyId::ETH,
                3 => MockCurrencyId::LTC,
                4 => MockCurrencyId::USDT,
                _ => MockCurrencyId::LpToken(0),
            }),
    {
        match id {
            0 => MockCurrencyId::PICA,
            1 => MockCurrencyId::BTC,
            2 => MockCurrencyId::ETH,
            3 => MockCurrencyId::LTC,
            4 => MockCurrencyId::USDT,
            _ => MockCurrencyId::LpToken(0),
        }
    }

    /// The liquidity-provider token after this one; `Overflow` after the last.
    pub fn next(self) -> (r: Result<MockCurrencyId, DispatchError>)
        requires
            self is LpToken,
        ensures
            r == (if self->LpToken_0 < u128::MAX {
                Ok::<MockCurrencyId, DispatchError>(MockCurrencyId::LpToken((self->LpToken_0 + 1) as u128))
            } else {
                Err::<MockCurrencyId, DispatchError>(DispatchError::Arithmetic(ArithmeticError::Overflow))
            }),
    {
        match self {
            MockCurrencyId::LpToken(x) => match x.checked_add(1) {
                Some(y) => Ok(MockCurrencyId::LpToken(y)),
                None => Err(DispatchError::Arithmetic(ArithmeticError::Overflow)),
            },
            _ => Ok(self),
        }
    }
}

impl Default for MockCurrencyId {
    /// PICA.
    fn default() -> (r: Self)
        ensures
            r == MockCurrencyId::PICA,
    {
        MockCurrencyId::PICA
    }
}

} // verus!
