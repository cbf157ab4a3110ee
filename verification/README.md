# smasage

The accounting core of the Smasage yield router, a Soroban contract that
takes USDC deposits, allocates them by percentage to Blend, to Soroswap
liquidity and to Tether Gold (XAUT), and pays withdrawals by drawing on the
USDC balance first, then Blend, then the pool shares, then gold.

- `src/` is the library, verified with Verus. `router.rs` holds the
  router's state (`SmasageYieldRouter`) and its operations, each specified
  by an `*_outcome` spec function over `RouterView`; `position.rs` the
  per-user buckets and the withdrawal waterfall; `liquidity.rs` what is
  asked of the tokens and of the Soroswap router when part of a deposit is
  turned into liquidity; `gold.rs` the purchase of the gold part along the
  path USDC to XAUT, and the XDR from which the host derives the XAUT
  token's address; `book.rs` the per-account positions; `account.rs`
  account identities; `error.rs` the refusals and their messages;
  `laws.rs` the properties that span operations.
- `app/` is the contract itself: it reads the persistent storage into the
  library's state, performs authorisation and the calls to the token and
  Soroswap contracts, and writes back what changed.
- `tests/` runs the library on concrete scenarios.
