//! A pair of currencies traded against each other.

use vstd::prelude::*;
use crate::currency::CurrencyId;

verus! {

/// A pair of currencies: `base` is priced in `quote`.
#[derive(Copy, Clone, Debug)]
pub struct CurrencyPair {
    pub base: CurrencyId,
    pub quote: CurrencyId,
}

/// Two pairs are equal when they hold the same two currencies, in either order.
pub open spec fn same_pair(a: CurrencyPair, b: CurrencyPair) -> bool {
    (a.base == b.base && a.quote == b.quote) || (a.base == b.quote && a.quote == b.base)
}

impl CurrencyPair {
    /// A pair of `base` priced in `quote`.
    pub fn new(base: CurrencyId, quote: CurrencyId) -> (r: CurrencyPair)
        ensures
            r.base == base,
            r.quote == quote,
    {
        CurrencyPair { base, quote }
    }

    /// The same currencies with base and quote exchanged.
    pub fn swap(&self) -> (r: CurrencyPair)
        ensures
            r.base == self.quote,
            r.quote == self.base,
    {
        CurrencyPair { base: self.quote, quote: self.base }
    }
}

impl PartialEq for CurrencyPair {
    fn eq(&self, other: &Self) -> (r: bool) {
        (self.base == other.base && self.quote == other.quote) || (self.base == other.quote
            && self.quote == other.base)
    }
}

impl vstd::std_specs::cmp::PartialEqSpecImpl for CurrencyPair {
    open spec fn obeys_eq_spec() -> bool {
        true
    }

    open spec fn eq_spec(&self, other: &CurrencyPair) -> bool {
        same_pair(*self, *other)
    }
}

impl Eq for CurrencyPair {

}

} // verus!
