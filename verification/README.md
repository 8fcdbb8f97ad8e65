# composable

Verified core of Composable's parachain pallets, written in Verus.

- `src/currency.rs` — `CurrencyId`, its units and saturating arithmetic.
- `src/arithmetic.rs` — `Permill` and `Perquintill`; the rounding of `Permill`
  is computed by `sp_arithmetic`.
- `src/decimal.rs` — `rust_decimal` numbers held as mantissa, scale and sign.
- `src/defi.rs` — currency pairs, equal in either order.
- `src/liquidity_bootstrapping.rs` — liquidity bootstrapping pools: linear
  weights over a sale, pool validation, Balancer pricing, and the pallet's
  calls as functions from storage and runtime readings to new storage and
  planned transfers.
- `src/assets_registry.rs` — two-way mapping of local and foreign assets,
  approved by two admins.
- `src/liquidations.rs` — liquidation strategies and the order in which
  auctions are tried.
- `src/weights.rs` — benchmarked weights of the bonded finance calls.
- `app/lib.rs` — carrying out the planned transfers against a runtime's assets,
  with roll-back when one fails.

Laws of the pallets are public proof functions next to the code they speak of
(`lemma_*`).
