//! Verified core of the Composable parachain pallets: currency identifiers,
//! the liquidity bootstrapping pool, the assets registry, the liquidation
//! strategy registry and the weight formulas.

pub mod arithmetic;
pub mod currency;
pub mod decimal;
pub mod defi;
pub mod dispatch;
pub mod liquidity_bootstrapping;
pub mod assets_registry;
pub mod liquidations;
pub mod dex;
pub mod mock_currency;
pub mod weights;
