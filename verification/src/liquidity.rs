//! Providing Soroswap liquidity with part of a deposit.
//!
//! The router approves the Soroswap router for the USDC, swaps half of it
//! for XLM, approves the XLM it received, adds both as liquidity and
//! credits the minted pool shares to the depositor. The calls to the
//! tokens and to the Soroswap router are made by the contract host; this
//! module decides what is asked of them and what is done with the replies.
use vstd::prelude::*;

use crate::account::AccountId;
use crate::error::RouterError;
use crate::router::RouterView;

verus! {

/// How many ledgers an approval to the Soroswap router stays valid.
pub const APPROVAL_LEDGERS: u32 = 100;

/// How many seconds a swap or liquidity request stays valid.
pub const SWAP_DEADLINE_SECONDS: u64 = 300;

/// Half of `amount`, rounded towards zero: the USDC that is swapped for XLM.
pub open spec fn swap_half(amount: int) -> int {
    if amount >= 0 {
        amount / 2
    } else {
        -((-amount) / 2)
    }
}

/// Why liquidity cannot be provided from the router in state `v`, at the
/// ledger with sequence number `sequence` and timestamp `timestamp`; `None`
/// when it can.
pub open spec fn provision_error(v: RouterView, sequence: u32, timestamp: u64) -> Option<RouterError> {
    if v.soroswap_router is None {
        Some(RouterError::SoroswapNotInitialized)
    } else if v.usdc_token is None {
        Some(RouterError::UsdcNotInitialized)
    } else if v.xlm_token is None {
        Some(RouterError::XlmNotInitialized)
    } else if sequence + APPROVAL_LEDGERS > u32::MAX {
        Some(RouterError::ArithmeticOverflow)
    } else if timestamp + SWAP_DEADLINE_SECONDS > u64::MAX {
        Some(RouterError::ArithmeticOverflow)
    } else {
        None
    }
}

/// What the router asks of the tokens and of the Soroswap router to turn
/// `usdc_amount` of a user's USDC into pool shares.
pub struct LpProvision {
    /// The Soroswap router, which is approved and then called.
    pub router: AccountId,
    /// The USDC token.
    pub usdc_token: AccountId,
    /// The XLM token.
    pub xlm_token: AccountId,
    /// The user whom the minted shares are credited to.
    pub user: AccountId,
    /// The USDC that the Soroswap router is approved to spend.
    pub usdc_amount: i128,
    /// The USDC swapped for XLM.
    pub swap_amount: i128,
    /// The least XLM that the swap must yield.
    pub min_swap_output: i128,
    /// The USDC added as liquidity beside the XLM.
    pub liquidity_usdc: i128,
    /// The least USDC that the pool must take.
    pub min_liquidity_usdc: i128,
    /// The least XLM that the pool must take.
    pub min_liquidity_xlm: i128,
    /// The last ledger at which both approvals are valid.
    pub expiration_ledger: u32,
    /// The timestamp after which the swap and the liquidity request lapse.
    pub deadline: u64,
}

impl LpProvision {
    /// Whether this is the provision that the router in state `v` makes for
    /// `user` and `usdc_amount` at the ledger `sequence`, `timestamp`.
    pub open spec fn describes(self, v: RouterView, user: Seq<u8>, usdc_amount: i128, sequence: u32, timestamp: u64) -> bool {
        &&& Some(self.router@) == v.soroswap_router
        &&& Some(self.usdc_token@) == v.usdc_token
        &&& Some(self.xlm_token@) == v.xlm_token
        &&& self.user@ == user
        &&& self.usdc_amount == usdc_amount
        &&& self.swap_amount == swap_half(usdc_amount as int)
        &&& self.liquidity_usdc == usdc_amount - swap_half(usdc_amount as int)
        &&& self.min_swap_output == 0
        &&& self.min_liquidity_usdc == 0
        &&& self.min_liquidity_xlm == 0
        &&& self.expiration_ledger == sequence + APPROVAL_LEDGERS
        &&& self.deadline == timestamp + SWAP_DEADLINE_SECONDS
    }

    /// The path of the swap: from USDC to XLM.
    pub fn swap_path(&self) -> (r: Vec<AccountId>)
        ensures
            r.len() == 2,
            r[0]@ == self.usdc_token@,
            r[1]@ == self.xlm_token@,
    {
        let mut path: Vec<AccountId> = Vec::new();
        path.push(self.usdc_token.duplicate());
        path.push(self.xlm_token.duplicate());
        path
    }

    /// The XLM received from the swap, read from the amounts that the
    /// Soroswap router reported: the second of them.
    pub fn received_xlm(&self, swap_amounts: &Vec<i128>) -> (r: Result<i128, RouterError>)
        ensures
            swap_amounts.len() >= 2 ==> r == Ok::<i128, RouterError>(swap_amounts[1]),
            swap_amounts.len() < 2 ==> r == Err::<i128, RouterError>(RouterError::MissingSwapOutput),
    {
        if swap_amounts.len() >= 2 {
            Ok(swap_amounts[1])
        } else {
            Err(RouterError::MissingSwapOutput)
        }
    }
}

} // verus!
