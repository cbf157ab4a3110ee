//! Properties of the router that span its operations.
use vstd::prelude::*;

use crate::book::position_in;
use crate::error::RouterError;
use crate::gold::{purchase_error, GoldPurchase};
use crate::liquidity::{provision_error, swap_half, LpProvision};
use crate::position::{allocation_share, total_fits, total_of, withdraw_outcome, UserPosition};
use crate::router::{
    applied, deposit_gold, deposit_liquidity, canonical_gold_asset_code, canonical_gold_asset_issuer, credit_lp_shares_outcome,
    deposit_outcome, gold_asset_of, init_gold_trustline_outcome, initialize_outcome,
    initialize_soroswap_outcome, reserve_of, router_withdraw_outcome, trustline_ready_of,
    RouterView, TRUSTLINE_BASE_RESERVE_STROOPS,
};

verus! {

/// Whether every bucket of `p` is non-negative.
pub open spec fn non_negative(p: UserPosition) -> bool {
    &&& p.balance >= 0
    &&& p.blend_balance >= 0
    &&& p.lp_shares >= 0
    &&& p.gold_balance >= 0
}

/// Whether the stored gold asset, where there is one, is the canonical one.
pub open spec fn gold_asset_canonical(v: RouterView) -> bool {
    &&& (v.gold_asset_code matches Some(c) ==> c == canonical_gold_asset_code())
    &&& (v.gold_asset_issuer matches Some(i) ==> i == canonical_gold_asset_issuer())
}

/// The router can be initialized once: after `initialize` has succeeded,
/// every further `initialize`, whoever calls it, is refused with
/// `AlreadyInitialized` and leaves the router as it is.
pub proof fn law_initialize_once(v: RouterView, admin: Seq<u8>, other: Seq<u8>)
    requires
        initialize_outcome(v, admin) is Ok,
    ensures
        initialize_outcome(v, admin)->Ok_0.admin == Some(admin),
        initialize_outcome(initialize_outcome(v, admin)->Ok_0, other) == Err::<RouterView, RouterError>(
            RouterError::AlreadyInitialized,
        ),
{
}

/// Only the admin configures the router: before `initialize` the admin
/// operations are refused with `NotInitialized`, and a caller other than
/// the admin is refused; a refused call changes nothing.
pub proof fn law_only_admin_configures(
    v: RouterView,
    caller: Seq<u8>,
    router: Seq<u8>,
    usdc: Seq<u8>,
    xlm: Seq<u8>,
    reserve_stroops: i128,
)
    requires
        v.admin != Some(caller),
    ensures
        initialize_soroswap_outcome(v, caller, router, usdc, xlm) == Err::<RouterView, RouterError>(
            if v.admin is None {
                RouterError::NotInitialized
            } else {
                RouterError::NotAdminForSoroswap
            },
        ),
        init_gold_trustline_outcome(v, caller, reserve_stroops) == Err::<RouterView, RouterError>(
            if v.admin is None {
                RouterError::NotInitialized
            } else {
                RouterError::NotAdminForGoldTrustline
            },
        ),
{
}

/// Once there is an admin, no operation replaces it.
pub proof fn law_admin_is_kept(
    v: RouterView,
    caller: Seq<u8>,
    account: Seq<u8>,
    router: Seq<u8>,
    usdc: Seq<u8>,
    xlm: Seq<u8>,
    reserve_stroops: i128,
    amount: i128,
    blend_pct: u32,
    lp_pct: u32,
    gold_pct: u32,
    sequence: u32,
    timestamp: u64,
    lp_shares: i128,
)
    requires
        v.admin is Some,
    ensures
        initialize_outcome(v, caller) is Err,
        initialize_soroswap_outcome(v, caller, router, usdc, xlm) matches Ok(n) ==> n.admin == v.admin,
        init_gold_trustline_outcome(v, caller, reserve_stroops) matches Ok(n) ==> n.admin == v.admin,
        deposit_outcome(v, account, amount, blend_pct, lp_pct, gold_pct, sequence, timestamp) matches Ok(n)
            ==> n.admin == v.admin,
        credit_lp_shares_outcome(v, account, lp_shares) matches Ok(n) ==> n.admin == v.admin,
        router_withdraw_outcome(v, account, amount) matches Ok(n) ==> n.admin == v.admin,
{
}

/// Whether the trustline is reported ready exactly when the reported
/// reserve is at least the base reserve.
pub open spec fn trustline_consistent(v: RouterView) -> bool {
    trustline_ready_of(v) <==> reserve_of(v) >= TRUSTLINE_BASE_RESERVE_STROOPS
}

/// The gold trustline is reported ready exactly when its reserve is at
/// least the base reserve: so it is for a router with nothing stored, and
/// every operation keeps it so.
pub proof fn law_trustline_ready_iff_reserve(
    v: RouterView,
    caller: Seq<u8>,
    account: Seq<u8>,
    router: Seq<u8>,
    usdc: Seq<u8>,
    xlm: Seq<u8>,
    reserve_stroops: i128,
    amount: i128,
    blend_pct: u32,
    lp_pct: u32,
    gold_pct: u32,
    sequence: u32,
    timestamp: u64,
    lp_shares: i128,
)
    requires
        trustline_consistent(v),
    ensures
        trustline_consistent(RouterView { gold_trustline_ready: None, gold_reserve_stroops: None, ..v }),
        initialize_outcome(v, caller) matches Ok(n) ==> trustline_consistent(n),
        initialize_soroswap_outcome(v, caller, router, usdc, xlm) matches Ok(n) ==> trustline_consistent(n),
        init_gold_trustline_outcome(v, caller, reserve_stroops) matches Ok(n) ==> trustline_consistent(n),
        deposit_outcome(v, account, amount, blend_pct, lp_pct, gold_pct, sequence, timestamp) matches Ok(n)
            ==> trustline_consistent(n),
        credit_lp_shares_outcome(v, account, lp_shares) matches Ok(n) ==> trustline_consistent(n),
        router_withdraw_outcome(v, account, amount) matches Ok(n) ==> trustline_consistent(n),
{
}

/// What `init_gold_trustline` writes is read back: the canonical gold
/// asset, a ready trustline and the reserve that was given.
pub proof fn law_trustline_reads_back(v: RouterView, admin: Seq<u8>, reserve_stroops: i128)
    requires
        v.admin == Some(admin),
        reserve_stroops >= TRUSTLINE_BASE_RESERVE_STROOPS,
    ensures
        init_gold_trustline_outcome(v, admin, reserve_stroops) matches Ok(n) && {
            &&& gold_asset_of(n) == (canonical_gold_asset_code(), canonical_gold_asset_issuer())
            &&& trustline_ready_of(n)
            &&& reserve_of(n) == reserve_stroops
        },
{
}

/// The router always reports the canonical gold asset: no operation stores
/// another one, and where nothing is stored the canonical one is reported.
pub proof fn law_gold_asset_stays_canonical(
    v: RouterView,
    caller: Seq<u8>,
    account: Seq<u8>,
    router: Seq<u8>,
    usdc: Seq<u8>,
    xlm: Seq<u8>,
    reserve_stroops: i128,
    amount: i128,
    blend_pct: u32,
    lp_pct: u32,
    gold_pct: u32,
    sequence: u32,
    timestamp: u64,
    lp_shares: i128,
)
    requires
        gold_asset_canonical(v),
    ensures
        gold_asset_of(v) == (canonical_gold_asset_code(), canonical_gold_asset_issuer()),
        initialize_outcome(v, caller) matches Ok(n) ==> gold_asset_canonical(n),
        initialize_soroswap_outcome(v, caller, router, usdc, xlm) matches Ok(n) ==> gold_asset_canonical(n),
        init_gold_trustline_outcome(v, caller, reserve_stroops) matches Ok(n) ==> gold_asset_canonical(n),
        deposit_outcome(v, account, amount, blend_pct, lp_pct, gold_pct, sequence, timestamp) matches Ok(n)
            ==> gold_asset_canonical(n),
        credit_lp_shares_outcome(v, account, lp_shares) matches Ok(n) ==> gold_asset_canonical(n),
        router_withdraw_outcome(v, account, amount) matches Ok(n) ==> gold_asset_canonical(n),
{
}

/// An operation on one user's funds leaves every other user's position, and
/// the router's configuration, as they were.
pub proof fn law_other_users_untouched(
    v: RouterView,
    user: Seq<u8>,
    other: Seq<u8>,
    amount: i128,
    blend_pct: u32,
    lp_pct: u32,
    gold_pct: u32,
    sequence: u32,
    timestamp: u64,
    lp_shares: i128,
)
    requires
        other != user,
    ensures
        deposit_outcome(v, user, amount, blend_pct, lp_pct, gold_pct, sequence, timestamp) matches Ok(n) ==> {
            &&& position_in(n.positions, other) == position_in(v.positions, other)
            &&& n == RouterView { positions: n.positions, ..v }
        },
        credit_lp_shares_outcome(v, user, lp_shares) matches Ok(n) ==> {
            &&& position_in(n.positions, other) == position_in(v.positions, other)
            &&& n == RouterView { positions: n.positions, ..v }
        },
        router_withdraw_outcome(v, user, amount) matches Ok(n) ==> {
            &&& position_in(n.positions, other) == position_in(v.positions, other)
            &&& n == RouterView { positions: n.positions, ..v }
        },
{
}

/// The configuration operations leave every position as it was.
pub proof fn law_configuration_keeps_positions(
    v: RouterView,
    caller: Seq<u8>,
    router: Seq<u8>,
    usdc: Seq<u8>,
    xlm: Seq<u8>,
    reserve_stroops: i128,
)
    ensures
        initialize_outcome(v, caller) matches Ok(n) ==> n.positions == v.positions,
        initialize_soroswap_outcome(v, caller, router, usdc, xlm) matches Ok(n) ==> n.positions == v.positions,
        init_gold_trustline_outcome(v, caller, reserve_stroops) matches Ok(n) ==> n.positions == v.positions,
{
}

/// A share of a non-negative amount is non-negative, and a hundred times
/// it is at most `amount * pct`.
proof fn lemma_share_bounds(amount: int, pct: int)
    requires
        amount >= 0,
        0 <= pct,
    ensures
        allocation_share(amount, pct) >= 0,
        allocation_share(amount, pct) * 100 <= amount * pct,
{
    assert(amount * pct >= 0) by (nonlinear_arith)
        requires
            amount >= 0,
            pct >= 0,
    ;
    let x = amount * pct;
    assert((x / 100) * 100 <= x && x / 100 >= 0) by (nonlinear_arith)
        requires
            x >= 0,
    ;
}

/// A deposit never allocates more than it brings: when the percentages add
/// up to at most 100, the Blend, liquidity and gold parts of a non-negative
/// amount are non-negative and together at most the amount.
pub proof fn law_allocation_within_deposit(amount: int, blend_pct: int, lp_pct: int, gold_pct: int)
    requires
        amount >= 0,
        blend_pct >= 0,
        lp_pct >= 0,
        gold_pct >= 0,
        blend_pct + lp_pct + gold_pct <= 100,
    ensures
        allocation_share(amount, blend_pct) >= 0,
        allocation_share(amount, lp_pct) >= 0,
        allocation_share(amount, gold_pct) >= 0,
        allocation_share(amount, blend_pct) + allocation_share(amount, lp_pct) + allocation_share(
            amount,
            gold_pct,
        ) <= amount,
{
    lemma_share_bounds(amount, blend_pct);
    lemma_share_bounds(amount, lp_pct);
    lemma_share_bounds(amount, gold_pct);
    assert(amount * blend_pct + amount * lp_pct + amount * gold_pct <= amount * 100) by (nonlinear_arith)
        requires
            amount >= 0,
            blend_pct + lp_pct + gold_pct <= 100,
    ;
}

/// A deposit asking for more than 100 percent in all is refused with
/// `AllocationExceeds100` (or `ArithmeticOverflow` when the percentages
/// overflow `u32`) and changes nothing; with at most 100 percent it is never
/// refused for that reason.
pub proof fn law_allocation_limit(
    v: RouterView,
    from: Seq<u8>,
    amount: i128,
    blend_pct: u32,
    lp_pct: u32,
    gold_pct: u32,
    sequence: u32,
    timestamp: u64,
)
    ensures
        blend_pct + lp_pct + gold_pct > 100 ==> deposit_outcome(
            v,
            from,
            amount,
            blend_pct,
            lp_pct,
            gold_pct,
            sequence,
            timestamp,
        ) is Err,
        blend_pct + lp_pct + gold_pct > 100 && blend_pct + lp_pct + gold_pct <= u32::MAX ==> deposit_outcome(
            v,
            from,
            amount,
            blend_pct,
            lp_pct,
            gold_pct,
            sequence,
            timestamp,
        ) == Err::<RouterView, RouterError>(RouterError::AllocationExceeds100),
        blend_pct + lp_pct + gold_pct <= 100 ==> deposit_outcome(
            v,
            from,
            amount,
            blend_pct,
            lp_pct,
            gold_pct,
            sequence,
            timestamp,
        ) != Err::<RouterView, RouterError>(RouterError::AllocationExceeds100),
{
}

/// A successful deposit credits the whole amount to the USDC balance, adds
/// the positive Blend and gold parts to their buckets, and leaves the pool
/// shares to the liquidity provision.
pub proof fn law_deposit_credits(
    v: RouterView,
    from: Seq<u8>,
    amount: i128,
    blend_pct: u32,
    lp_pct: u32,
    gold_pct: u32,
    sequence: u32,
    timestamp: u64,
)
    requires
        deposit_outcome(v, from, amount, blend_pct, lp_pct, gold_pct, sequence, timestamp) is Ok,
    ensures
        ({
            let n = deposit_outcome(v, from, amount, blend_pct, lp_pct, gold_pct, sequence, timestamp)->Ok_0;
            let p = position_in(v.positions, from);
            let q = position_in(n.positions, from);
            let blend_amount = allocation_share(amount as int, blend_pct as int);
            let gold_amount = allocation_share(amount as int, gold_pct as int);
            &&& q.balance == p.balance + amount
            &&& q.blend_balance == p.blend_balance + (if blend_amount > 0 { blend_amount } else { 0 })
            &&& q.gold_balance == p.gold_balance + (if gold_amount > 0 { gold_amount } else { 0 })
            &&& q.lp_shares == p.lp_shares
        }),
{
}

/// Crediting minted pool shares adds them to the user's shares alone.
pub proof fn law_lp_shares_credited(v: RouterView, user: Seq<u8>, lp_shares: i128)
    requires
        credit_lp_shares_outcome(v, user, lp_shares) is Ok,
    ensures
        ({
            let n = credit_lp_shares_outcome(v, user, lp_shares)->Ok_0;
            let p = position_in(v.positions, user);
            position_in(n.positions, user) == UserPosition { lp_shares: (p.lp_shares + lp_shares) as i128, ..p }
        }),
{
}

/// Splitting the USDC of a provision: the swapped half and the half added
/// as liquidity make up the whole, and for a non-negative amount the added
/// half is the swapped one or one more.
pub proof fn law_lp_split(usdc_amount: int)
    ensures
        swap_half(usdc_amount) + (usdc_amount - swap_half(usdc_amount)) == usdc_amount,
        usdc_amount >= 0 ==> 0 <= (usdc_amount - swap_half(usdc_amount)) - swap_half(usdc_amount) <= 1,
        usdc_amount >= 0 ==> swap_half(usdc_amount) >= 0,
{
}

/// A withdrawal of a non-negative amount from non-negative buckets succeeds
/// exactly when the buckets hold at least the amount in all. It then takes
/// exactly the amount from them, no bucket grows or goes negative, and a
/// bucket is drawn on only when those before it (USDC, Blend, pool shares,
/// gold, in this order) are left empty.
pub proof fn law_withdraw_conserves(p: UserPosition, amount: int)
    requires
        non_negative(p),
        total_fits(p),
        amount >= 0,
    ensures
        withdraw_outcome(p, amount) is Ok <==> total_of(p) >= amount,
        total_of(p) < amount ==> withdraw_outcome(p, amount) == Err::<UserPosition, RouterError>(
            RouterError::InsufficientBalance,
        ),
        withdraw_outcome(p, amount) matches Ok(q) ==> {
            &&& total_of(q) == total_of(p) - amount
            &&& non_negative(q)
            &&& q.balance <= p.balance
            &&& q.blend_balance <= p.blend_balance
            &&& q.lp_shares <= p.lp_shares
            &&& q.gold_balance <= p.gold_balance
            &&& q.blend_balance < p.blend_balance ==> q.balance == 0
            &&& q.lp_shares < p.lp_shares ==> q.balance == 0 && q.blend_balance == 0
            &&& q.gold_balance < p.gold_balance ==> q.balance == 0 && q.blend_balance == 0
                && q.lp_shares == 0
        },
{
}

/// A withdrawal never raises a bucket: a negative amount is refused (with
/// `NegativeAmount` once the buckets fit and cover it), and a successful
/// withdrawal leaves every bucket at most what it was and takes exactly the
/// amount from them in all. Nor does a withdrawal ever end unsettled: once
/// the sum fits and covers a non-negative amount, the buckets settle it.
/// `InsufficientBalance` comes exactly when the buckets, whose sum fits,
/// hold less than the amount, whatever its sign.
pub proof fn law_withdraw_never_raises(p: UserPosition, amount: int)
    ensures
        amount < 0 ==> withdraw_outcome(p, amount) is Err,
        amount < 0 && total_fits(p) && total_of(p) >= amount ==> withdraw_outcome(p, amount)
            == Err::<UserPosition, RouterError>(RouterError::NegativeAmount),
        total_fits(p) ==> (withdraw_outcome(p, amount) == Err::<UserPosition, RouterError>(
            RouterError::InsufficientBalance,
        ) <==> total_of(p) < amount),
        withdraw_outcome(p, amount) != Err::<UserPosition, RouterError>(
            RouterError::WithdrawalCalculationFailed,
        ),
        withdraw_outcome(p, amount) matches Ok(q) ==> {
            &&& q.balance <= p.balance
            &&& q.blend_balance <= p.blend_balance
            &&& q.lp_shares <= p.lp_shares
            &&& q.gold_balance <= p.gold_balance
            &&& total_of(q) == total_of(p) - amount
        },
{
}

/// A withdrawal that the USDC balance covers, from buckets that hold at
/// least the amount in all, takes from the USDC balance alone.
pub proof fn law_withdraw_from_usdc_first(p: UserPosition, amount: int)
    requires
        total_fits(p),
        total_of(p) >= amount,
        0 <= amount <= p.balance,
    ensures
        withdraw_outcome(p, amount) == Ok::<UserPosition, RouterError>(
            UserPosition { balance: (p.balance - amount) as i128, ..p },
        ),
{
}

/// Withdrawing what was just deposited gives back the USDC balance held
/// before the deposit, while the Blend and gold parts of the deposit stay
/// allocated.
pub proof fn law_deposit_then_withdraw(
    v: RouterView,
    user: Seq<u8>,
    amount: i128,
    blend_pct: u32,
    lp_pct: u32,
    gold_pct: u32,
    sequence: u32,
    timestamp: u64,
)
    requires
        amount >= 0,
        non_negative(position_in(v.positions, user)),
        deposit_outcome(v, user, amount, blend_pct, lp_pct, gold_pct, sequence, timestamp) is Ok,
        total_fits(
            position_in(
                deposit_outcome(v, user, amount, blend_pct, lp_pct, gold_pct, sequence, timestamp)->Ok_0.positions,
                user,
            ),
        ),
    ensures
        ({
            let n = deposit_outcome(v, user, amount, blend_pct, lp_pct, gold_pct, sequence, timestamp)->Ok_0;
            router_withdraw_outcome(n, user, amount) matches Ok(w) && {
                &&& position_in(w.positions, user).balance == position_in(v.positions, user).balance
                &&& position_in(w.positions, user) == UserPosition {
                    balance: position_in(v.positions, user).balance,
                    ..position_in(n.positions, user)
                }
            }
        }),
{
    let n = deposit_outcome(v, user, amount, blend_pct, lp_pct, gold_pct, sequence, timestamp)->Ok_0;
    law_withdraw_from_usdc_first(position_in(n.positions, user), amount as int);
}

/// Configuring Soroswap as the admin always takes effect: the given router,
/// USDC and XLM tokens are stored, whatever was stored before, and nothing
/// else changes.
pub proof fn law_admin_configures_soroswap(
    v: RouterView,
    admin: Seq<u8>,
    router: Seq<u8>,
    usdc: Seq<u8>,
    xlm: Seq<u8>,
)
    requires
        v.admin == Some(admin),
    ensures
        initialize_soroswap_outcome(v, admin, router, usdc, xlm) matches Ok(n) && {
            &&& n.soroswap_router == Some(router)
            &&& n.usdc_token == Some(usdc)
            &&& n.xlm_token == Some(xlm)
            &&& n.admin == v.admin
            &&& n.gold_asset_code == v.gold_asset_code
            &&& n.gold_asset_issuer == v.gold_asset_issuer
            &&& n.gold_trustline_ready == v.gold_trustline_ready
            &&& n.gold_reserve_stroops == v.gold_reserve_stroops
            &&& n.positions == v.positions
        },
{
}

/// The share that a deposit allocates for `pct` percent of `amount` is the
/// quotient of `amount * pct` by 100, rounded towards zero: a hundred times
/// it is within 100 below a non-negative product, and within 100 above a
/// negative one.
pub proof fn law_allocation_share_is_quotient(amount: int, pct: int)
    ensures
        amount * pct >= 0 ==> 100 * allocation_share(amount, pct) <= amount * pct < 100 * allocation_share(
            amount,
            pct,
        ) + 100,
        amount * pct < 0 ==> 100 * allocation_share(amount, pct) - 100 < amount * pct <= 100
            * allocation_share(amount, pct),
{
    let x = amount * pct;
    if x >= 0 {
        assert(100 * (x / 100) <= x < 100 * (x / 100) + 100) by (nonlinear_arith)
            requires
                x >= 0,
        ;
    } else {
        let y = -x;
        assert(100 * (y / 100) <= y < 100 * (y / 100) + 100) by (nonlinear_arith)
            requires
                y > 0,
        ;
    }
}

/// A successful deposit of a non-negative amount credits Blend and gold with
/// exactly `amount * pct / 100` each (rounded down), so a hundred times the
/// credit is within 100 below `amount * pct`.
pub proof fn law_deposit_credits_exact_shares(
    v: RouterView,
    from: Seq<u8>,
    amount: i128,
    blend_pct: u32,
    lp_pct: u32,
    gold_pct: u32,
    sequence: u32,
    timestamp: u64,
)
    requires
        amount >= 0,
        deposit_outcome(v, from, amount, blend_pct, lp_pct, gold_pct, sequence, timestamp) is Ok,
    ensures
        ({
            let n = deposit_outcome(v, from, amount, blend_pct, lp_pct, gold_pct, sequence, timestamp)->Ok_0;
            let p = position_in(v.positions, from);
            let q = position_in(n.positions, from);
            &&& q.balance == p.balance + amount
            &&& 100 * (q.blend_balance - p.blend_balance) <= amount * blend_pct < 100 * (q.blend_balance
                - p.blend_balance) + 100
            &&& 100 * (q.gold_balance - p.gold_balance) <= amount * gold_pct < 100 * (q.gold_balance
                - p.gold_balance) + 100
            &&& q.lp_shares == p.lp_shares
        }),
{
    law_allocation_share_is_quotient(amount as int, blend_pct as int);
    law_allocation_share_is_quotient(amount as int, gold_pct as int);
    assert(amount * blend_pct >= 0 && amount * gold_pct >= 0) by (nonlinear_arith)
        requires
            amount >= 0,
            blend_pct >= 0,
            gold_pct >= 0,
    ;
}

/// Liquidity can be provided exactly when the Soroswap router and the USDC
/// and XLM tokens are configured, the approval's expiration ledger
/// (`sequence + 100`) fits in `u32` and the deadline (`timestamp + 300`)
/// fits in `u64`.
pub proof fn law_provision_available(v: RouterView, sequence: u32, timestamp: u64)
    ensures
        provision_error(v, sequence, timestamp) is None <==> {
            &&& v.soroswap_router is Some
            &&& v.usdc_token is Some
            &&& v.xlm_token is Some
            &&& sequence + 100 <= u32::MAX
            &&& timestamp + 300 <= u64::MAX
        },
{
}

/// A liquidity provision approves the router until 100 ledgers on and lets
/// the swap and the liquidity request lapse 300 seconds on; it swaps half
/// of the USDC (rounded towards zero) and adds the rest as liquidity, with
/// no minimum amounts.
pub proof fn law_provision_terms(p: LpProvision, v: RouterView, user: Seq<u8>, usdc_amount: i128, sequence: u32, timestamp: u64)
    requires
        p.describes(v, user, usdc_amount, sequence, timestamp),
    ensures
        p.expiration_ledger == sequence + 100,
        p.deadline == timestamp + 300,
        p.swap_amount + p.liquidity_usdc == usdc_amount,
        usdc_amount >= 0 ==> 0 <= p.swap_amount <= p.liquidity_usdc <= p.swap_amount + 1,
        usdc_amount < 0 ==> p.liquidity_usdc <= p.swap_amount <= 0,
        p.usdc_amount == usdc_amount,
        p.min_swap_output == 0 && p.min_liquidity_usdc == 0 && p.min_liquidity_xlm == 0,
        Some(p.router@) == v.soroswap_router,
        Some(p.usdc_token@) == v.usdc_token,
        Some(p.xlm_token@) == v.xlm_token,
        p.user@ == user,
{
}

/// The gold part of a deposit can be bought exactly when the Soroswap
/// router and the USDC token are configured, the approval's expiration
/// ledger (`sequence + 100`) fits in `u32` and the deadline
/// (`timestamp + 300`) fits in `u64`.
pub proof fn law_purchase_available(v: RouterView, sequence: u32, timestamp: u64)
    ensures
        purchase_error(v, sequence, timestamp) is None <==> {
            &&& v.soroswap_router is Some
            &&& v.usdc_token is Some
            &&& sequence + 100 <= u32::MAX
            &&& timestamp + 300 <= u64::MAX
        },
{
}

/// A gold purchase spends exactly the given USDC on the reported gold asset,
/// approves the router until 100 ledgers on and lapses 300 seconds on.
pub proof fn law_purchase_terms(g: GoldPurchase, v: RouterView, usdc_amount: i128, sequence: u32, timestamp: u64)
    requires
        g.describes(v, usdc_amount, sequence, timestamp),
    ensures
        g.usdc_amount == usdc_amount,
        g.min_gold_received == 0,
        g.expiration_ledger == sequence + 100,
        g.deadline == timestamp + 300,
        (g.gold_asset_code@, g.gold_asset_issuer@) == gold_asset_of(v),
        Some(g.router@) == v.soroswap_router,
        Some(g.usdc_token@) == v.usdc_token,
{
}

/// A deposit succeeds whenever it can: with Soroswap, USDC and XLM
/// configured, percentages adding up to at most 100, a non-negative amount
/// small enough that a hundred times it fits in `i128`, buckets with room
/// for the amount, and a ledger whose expiration and deadline fit.
pub proof fn law_deposit_succeeds(
    v: RouterView,
    from: Seq<u8>,
    amount: i128,
    blend_pct: u32,
    lp_pct: u32,
    gold_pct: u32,
    sequence: u32,
    timestamp: u64,
)
    requires
        v.soroswap_router is Some,
        v.usdc_token is Some,
        v.xlm_token is Some,
        blend_pct + lp_pct + gold_pct <= 100,
        0 <= amount,
        100 * amount <= i128::MAX,
        position_in(v.positions, from).balance + amount <= i128::MAX,
        position_in(v.positions, from).blend_balance + amount <= i128::MAX,
        position_in(v.positions, from).gold_balance + amount <= i128::MAX,
        sequence + 100 <= u32::MAX,
        timestamp + 300 <= u64::MAX,
    ensures
        deposit_outcome(v, from, amount, blend_pct, lp_pct, gold_pct, sequence, timestamp) is Ok,
{
    law_allocation_within_deposit(amount as int, blend_pct as int, lp_pct as int, gold_pct as int);
    assert(0 <= amount * blend_pct <= 100 * amount && 0 <= amount * lp_pct <= 100 * amount && 0
        <= amount * gold_pct <= 100 * amount) by (nonlinear_arith)
        requires
            amount >= 0,
            0 <= blend_pct <= 100,
            0 <= lp_pct <= 100,
            0 <= gold_pct <= 100,
    ;
}

/// The router's withdrawal drains the user's buckets in the order USDC,
/// Blend, LP shares, gold. For non-negative buckets whose sum fits, with the
/// USDC token configured, a non-negative withdrawal succeeds exactly when
/// the buckets hold the amount; it then takes exactly the amount, no bucket
/// grows or goes negative, a bucket decreases only when every bucket before
/// it ends at zero (so gold is sold only once the LP shares are used up),
/// and nothing but the user's position changes.
pub proof fn law_router_withdraw_waterfall(v: RouterView, to: Seq<u8>, other: Seq<u8>, amount: i128)
    requires
        v.usdc_token is Some,
        non_negative(position_in(v.positions, to)),
        total_fits(position_in(v.positions, to)),
        amount >= 0,
        other != to,
    ensures
        router_withdraw_outcome(v, to, amount) is Ok <==> total_of(position_in(v.positions, to)) >= amount,
        router_withdraw_outcome(v, to, amount) matches Ok(n) ==> {
            let p = position_in(v.positions, to);
            let q = position_in(n.positions, to);
            &&& q.balance + q.blend_balance + q.lp_shares + q.gold_balance == p.balance + p.blend_balance
                + p.lp_shares + p.gold_balance - amount
            &&& 0 <= q.balance <= p.balance
            &&& 0 <= q.blend_balance <= p.blend_balance
            &&& 0 <= q.lp_shares <= p.lp_shares
            &&& 0 <= q.gold_balance <= p.gold_balance
            &&& q.blend_balance < p.blend_balance ==> q.balance == 0
            &&& q.lp_shares < p.lp_shares ==> q.balance == 0 && q.blend_balance == 0
            &&& q.gold_balance < p.gold_balance ==> q.balance == 0 && q.blend_balance == 0
                && q.lp_shares == 0
            &&& position_in(n.positions, other) == position_in(v.positions, other)
            &&& n == RouterView { positions: n.positions, ..v }
        },
{
    law_withdraw_conserves(position_in(v.positions, to), amount as int);
}

/// What `applied` says of an operation: on success the result is `Ok` and
/// the state becomes the outcome's, on refusal the result is the outcome's
/// error and the state stays as it was.
pub proof fn law_applied_means(o: Result<RouterView, RouterError>, old: RouterView, new: RouterView, r: Result<(), RouterError>)
    requires
        applied(o, old, new, r),
    ensures
        o is Ok ==> r is Ok && new == o->Ok_0,
        o is Err ==> r == Err::<(), RouterError>(o->Err_0) && new == old,
{
}

/// Crediting pool shares succeeds exactly when the user's shares plus the
/// new ones fit in `i128`.
pub proof fn law_lp_credit_succeeds(v: RouterView, user: Seq<u8>, lp_shares: i128)
    ensures
        credit_lp_shares_outcome(v, user, lp_shares) is Ok <==> i128::MIN <= position_in(v.positions, user).lp_shares
            + lp_shares <= i128::MAX,
{
}

/// A deposit of a non-negative amount provides liquidity exactly when its
/// liquidity share, `amount * lp_pct / 100` rounded down, is positive, that
/// is when `amount * lp_pct` is at least 100, and buys gold exactly when
/// `amount * gold_pct` is at least 100; each for exactly its share. (A
/// deposit that gets this far has percentages of at most 100.)
pub proof fn law_deposit_parts(amount: i128, lp_pct: u32, gold_pct: u32)
    requires
        amount >= 0,
        lp_pct <= 100,
        gold_pct <= 100,
    ensures
        deposit_liquidity(amount, lp_pct) is Some <==> amount * lp_pct >= 100,
        deposit_liquidity(amount, lp_pct) matches Some(x) ==> 100 * x <= amount * lp_pct < 100 * x + 100,
        deposit_gold(amount, gold_pct) is Some <==> amount * gold_pct >= 100,
        deposit_gold(amount, gold_pct) matches Some(x) ==> 100 * x <= amount * gold_pct < 100 * x + 100,
{
    law_allocation_share_is_quotient(amount as int, lp_pct as int);
    law_allocation_share_is_quotient(amount as int, gold_pct as int);
    assert(amount * lp_pct >= 0 && amount * gold_pct >= 0) by (nonlinear_arith)
        requires
            amount >= 0,
            lp_pct >= 0,
            gold_pct >= 0,
    ;
    assert(lp_pct == 0 ==> amount * lp_pct == 0) by (nonlinear_arith);
    lemma_share_bounds(amount as int, lp_pct as int);
    lemma_share_bounds(amount as int, gold_pct as int);
    assert(amount * lp_pct <= 100 * amount && amount * gold_pct <= 100 * amount) by (nonlinear_arith)
        requires
            amount >= 0,
            lp_pct <= 100,
            gold_pct <= 100,
    ;
}

} // verus!
