//! Pools and routes of decentralized exchanges.

use vstd::prelude::*;
use crate::arithmetic::Permill;

verus! {

/// A fixed-point number with 18 decimals, held as its inner integer.
#[derive(Copy, Clone, Debug, PartialEq, Eq, Structural)]
pub struct FixedU128 {
    /// The number times `10^18`.
    pub inner: u128,
}

/// A stable swap pool (Curve's invariant).
#[derive(Copy, Clone, Debug)]
pub struct StableSwapPoolInfo<AccountId, AssetId> {
    /// Owner of the pool.
    pub owner: AccountId,
    /// Asset of the pool's liquidity-provider token.
    pub lp_token: AssetId,
    /// Initial amplification coefficient.
    pub amplification_coefficient: FixedU128,
    /// Fee that the pool charges on an exchange.
    pub fee: Permill,
    /// Part of the fee that goes to the admin.
    pub admin_fee: Permill,
}

/// A constant product pool (Uniswap's invariant).
#[derive(Copy, Clone, Debug)]
pub struct ConstantProductPoolInfo<AccountId, AssetId> {
    /// Owner of the pool.
    pub owner: AccountId,
    /// Asset of the pool's liquidity-provider token.
    pub lp_token: AssetId,
    /// Fee that the pool charges on an exchange.
    pub fee: Permill,
}

/// One hop of a route: a pool of a curve (stable swap) or of a Uniswap-like
/// (constant product) exchange.
#[derive(Copy, Clone, Debug, PartialEq, Eq, Structural)]
pub enum DexRouteNode<PoolId> {
    Curve(PoolId),
    Uniswap(PoolId),
}

/// A route through exchanges: the pools to go through, in order.
#[derive(Clone, Debug)]
pub enum DexRoute<PoolId> {
    Direct(Vec<DexRouteNode<PoolId>>),
}

impl<PoolId> DexRoute<PoolId> {
    /// A direct route through `nodes`, when it has at most `max_hops` hops.
    pub fn direct(nodes: Vec<DexRouteNode<PoolId>>, max_hops: u32) -> (r: Option<DexRoute<PoolId>>)
        ensures
            nodes@.len() <= max_hops ==> (r matches Some(DexRoute::Direct(v)) && v@ == nodes@),
            nodes@.len() > max_hops ==> r is None,
    {
        if nodes.len() as u64 <= max_hops as u64 {
            Some(DexRoute::Direct(nodes))
        } else {
            None
        }
    }

    /// The hops of the route.
    pub fn hops(&self) -> (r: &Vec<DexRouteNode<PoolId>>)
        ensures
            match self {
                DexRoute::Direct(v) => r@ == v@,
            },
    {
        match self {
            DexRoute::Direct(v) => v,
        }
    }
}

} // verus!
