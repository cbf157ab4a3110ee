//! Accounting core of the Smasage yield router: the state that the router
//! keeps, the rules by which deposits are allocated to Blend, Soroswap
//! liquidity and gold, the withdrawal waterfall, and the admin-only
//! configuration, each with its contract.

pub mod account;
pub mod book;
pub mod error;
pub mod gold;
pub mod laws;
pub mod liquidity;
pub mod position;
pub mod router;
