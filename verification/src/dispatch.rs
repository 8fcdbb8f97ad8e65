//! Origins, account identifiers and dispatch errors shared by the pallets.

use vstd::prelude::*;
use crate::arithmetic::ArithmeticError;

verus! {

/// An account of the runtime.
pub type AccountId = u128;

/// An amount of some asset.
pub type Balance = u128;

/// Height of a block.
pub type BlockNumber = u32;

/// Who dispatches a call.
#[derive(Copy, Clone, Debug, PartialEq, Eq, Structural)]
pub enum Origin {
    /// The root (governance) origin.
    Root,
    /// A signed extrinsic of an account.
    Signed(AccountId),
    /// An unsigned extrinsic.
    Unsigned,
}

/// Why a call failed.
#[derive(Copy, Clone, Debug, PartialEq, Eq)]
pub enum DispatchError {
    /// The origin is not allowed to make the call.
    BadOrigin,
    /// An arithmetic operation failed.
    Arithmetic(ArithmeticError),
    /// An error of the liquidity bootstrapping pallet.
    LiquidityBootstrapping(crate::liquidity_bootstrapping::Error),
    /// An error of the assets registry pallet.
    AssetsRegistry(crate::assets_registry::Error),
    /// An error of the liquidations pallet.
    Liquidations(crate::liquidations::Error),
    /// A failure described by a message.
    Other(&'static str),
}

/// `ensure_signed`: the account of a signed origin, `BadOrigin` otherwise.
pub fn ensure_signed(origin: Origin) -> (r: Result<AccountId, DispatchError>)
    ensures
        r == (match origin {
            Origin::Signed(who) => Ok(who),
            _ => Err(DispatchError::BadOrigin),
        }),
{
    match origin {
        Origin::Signed(who) => Ok(who),
        _ => Err(DispatchError::BadOrigin),
    }
}

/// `ensure_root`: succeeds for the root origin only.
pub fn ensure_root(origin: Origin) -> (r: Result<(), DispatchError>)
    ensures
        r == (match origin {
            Origin::Root => Ok(()),
            _ => Err(DispatchError::BadOrigin),
        }),
{
    match origin {
        Origin::Root => Ok(()),
        _ => Err(DispatchError::BadOrigin),
    }
}

} // verus!
