//! What the router holds for one user, and how a withdrawal is drawn from it.
use vstd::prelude::*;

use crate::error::RouterError;

verus! {

/// Whether `x` is a value of `i128`.
pub open spec fn in_i128(x: int) -> bool {
    i128::MIN <= x <= i128::MAX
}

/// The four buckets that the router keeps for one user. A user of whom
/// nothing is stored holds zero in every bucket.
#[derive(Clone, Copy, Debug, PartialEq, Eq, Structural)]
pub struct UserPosition {
    /// USDC credited to the user.
    pub balance: i128,
    /// The part of the deposits allocated to Blend.
    pub blend_balance: i128,
    /// Soroswap liquidity-pool shares minted for the user.
    pub lp_shares: i128,
    /// The part of the deposits allocated to gold (XAUT).
    pub gold_balance: i128,
}

/// The position of a user of whom nothing is stored.
pub open spec fn empty_position() -> UserPosition {
    UserPosition { balance: 0, blend_balance: 0, lp_shares: 0, gold_balance: 0 }
}

/// The sum of the four buckets.
pub open spec fn total_of(p: UserPosition) -> int {
    p.balance + p.blend_balance + p.lp_shares + p.gold_balance
}

/// Whether the sum of the buckets, added up from the USDC balance onwards,
/// stays within `i128` at every step.
pub open spec fn total_fits(p: UserPosition) -> bool {
    &&& in_i128(p.balance + p.blend_balance)
    &&& in_i128(p.balance + p.blend_balance + p.lp_shares)
    &&& in_i128(p.balance + p.blend_balance + p.lp_shares + p.gold_balance)
}

/// The smaller of two integers.
pub open spec fn min_int(a: int, b: int) -> int {
    if a <= b {
        a
    } else {
        b
    }
}

/// What a bucket after the USDC balance gives towards the `rest` still to
/// be withdrawn: nothing when nothing is left to withdraw or the bucket is
/// not positive, else as much of `rest` as the bucket holds.
pub open spec fn draw_from(bucket: int, rest: int) -> int {
    if rest > 0 && bucket > 0 {
        min_int(bucket, rest)
    } else {
        0
    }
}

/// The result of withdrawing `amount` from `p`. The withdrawal is refused,
/// in this order, when the sum of the buckets overflows, when it is below
/// `amount`, when `amount` is negative, and when the buckets do not settle
/// the whole amount. Otherwise the USDC balance is used first (whenever it
/// is positive), then Blend, then the LP shares, then gold, each at one unit
/// per unit.
pub open spec fn withdraw_outcome(p: UserPosition, amount: int) -> Result<UserPosition, RouterError> {
    if !total_fits(p) {
        Err(RouterError::ArithmeticOverflow)
    } else if total_of(p) < amount {
        Err(RouterError::InsufficientBalance)
    } else if amount < 0 {
        Err(RouterError::NegativeAmount)
    } else {
        let d1 = if p.balance > 0 { min_int(p.balance as int, amount) } else { 0 };
        let r1 = amount - d1;
        let d2 = draw_from(p.blend_balance as int, r1);
        let r2 = r1 - d2;
        let d3 = draw_from(p.lp_shares as int, r2);
        let r3 = r2 - d3;
        let d4 = draw_from(p.gold_balance as int, r3);
        let r4 = r3 - d4;
        if r4 != 0 {
            Err(RouterError::WithdrawalCalculationFailed)
        } else {
            Ok(
                UserPosition {
                    balance: (p.balance - d1) as i128,
                    blend_balance: (p.blend_balance - d2) as i128,
                    lp_shares: (p.lp_shares - d3) as i128,
                    gold_balance: (p.gold_balance - d4) as i128,
                },
            )
        }
    }
}

/// The part of `amount` that `pct` percent of it makes, the division
/// rounding towards zero.
pub open spec fn allocation_share(amount: int, pct: int) -> int {
    let p = amount * pct;
    if p >= 0 {
        p / 100
    } else {
        -((-p) / 100)
    }
}

impl UserPosition {
    /// A position with nothing in it.
    pub fn empty() -> (r: UserPosition)
        ensures
            r == empty_position(),
    {
        UserPosition { balance: 0, blend_balance: 0, lp_shares: 0, gold_balance: 0 }
    }

    /// Withdraws `amount` from this position, as `withdraw_outcome` says.
    pub fn withdraw(&self, amount: i128) -> (r: Result<UserPosition, RouterError>)
        ensures
            r == withdraw_outcome(*self, amount as int),
    {
        let usdc = self.balance;
        let blend = self.blend_balance;
        let lp = self.lp_shares;
        let gold = self.gold_balance;
        let t1 = match usdc.checked_add(blend) {
            Some(t) => t,
            None => return Err(RouterError::ArithmeticOverflow),
        };
        let t2 = match t1.checked_add(lp) {
            Some(t) => t,
            None => return Err(RouterError::ArithmeticOverflow),
        };
        let total = match t2.checked_add(gold) {
            Some(t) => t,
            None => return Err(RouterError::ArithmeticOverflow),
        };
        if total < amount {
            return Err(RouterError::InsufficientBalance);
        }
        if amount < 0 {
            return Err(RouterError::NegativeAmount);
        }
        let mut remaining = amount;
        let mut new_usdc = usdc;
        if usdc > 0 {
            let used = if usdc <= remaining { usdc } else { remaining };
            new_usdc = usdc - used;
            remaining = remaining - used;
        }
        let mut new_blend = blend;
        if remaining > 0 && blend > 0 {
            let used = if blend <= remaining { blend } else { remaining };
            new_blend = blend - used;
            remaining = remaining - used;
        }
        let mut new_lp = lp;
        if remaining > 0 && lp > 0 {
            let used = if lp <= remaining { lp } else { remaining };
            new_lp = lp - used;
            remaining = remaining - used;
        }
        let mut new_gold = gold;
        if remaining > 0 && gold > 0 {
            let used = if gold <= remaining { gold } else { remaining };
            new_gold = gold - used;
            remaining = remaining - used;
        }
        if remaining != 0 {
            return Err(RouterError::WithdrawalCalculationFailed);
        }
        Ok(UserPosition { balance: new_usdc, blend_balance: new_blend, lp_shares: new_lp, gold_balance: new_gold })
    }
}

/// `pct` percent of `amount`, rounded towards zero; `None` when the product
/// `amount * pct` leaves `i128`.
pub fn share_of(amount: i128, pct: u32) -> (r: Option<i128>)
    ensures
        r == (if in_i128(amount * pct) {
            Some(allocation_share(amount as int, pct as int) as i128)
        } else {
            None::<i128>
        }),
{
    let product = match amount.checked_mul(pct as i128) {
        Some(p) => p,
        None => return None,
    };
    match product.checked_div(100) {
        Some(s) => Some(s),
        None => None,
    }
}

} // verus!
