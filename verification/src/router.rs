//! The state of the yield router and the operations of the contract on it.
use vstd::prelude::*;

use crate::account::AccountId;
use crate::book::{position_in, PositionBook};
use crate::error::RouterError;
use crate::gold::{purchase_error, GoldPurchase};
use crate::liquidity::{provision_error, LpProvision, APPROVAL_LEDGERS, SWAP_DEADLINE_SECONDS};
use crate::position::{allocation_share, in_i128, share_of, withdraw_outcome, UserPosition};

verus! {

/// The least reserve, in stroops, with which the gold trustline is set up.
pub const TRUSTLINE_BASE_RESERVE_STROOPS: i128 = 5_000_000;

/// The asset code of the gold token (Tether Gold).
pub open spec fn canonical_gold_asset_code() -> Seq<char> {
    "XAUT"@
}

/// The issuer of the gold token.
pub open spec fn canonical_gold_asset_issuer() -> Seq<char> {
    "GCRLXTLD7XIRXWXV2PDCC74O5TUUKN3OODJAM6TWVE4AIRNMGQJK3KWQ"@
}

/// The gold asset code, as a string.
pub fn gold_asset_code() -> (r: String)
    ensures
        r@ == canonical_gold_asset_code(),
{
    "XAUT".to_owned()
}

/// The gold asset issuer, as a string.
pub fn gold_asset_issuer() -> (r: String)
    ensures
        r@ == canonical_gold_asset_issuer(),
{
    "GCRLXTLD7XIRXWXV2PDCC74O5TUUKN3OODJAM6TWVE4AIRNMGQJK3KWQ".to_owned()
}

/// The router's stored state, as values.
#[verifier::ext_equal]
pub struct RouterView {
    pub admin: Option<Seq<u8>>,
    pub soroswap_router: Option<Seq<u8>>,
    pub usdc_token: Option<Seq<u8>>,
    pub xlm_token: Option<Seq<u8>>,
    pub gold_asset_code: Option<Seq<char>>,
    pub gold_asset_issuer: Option<Seq<char>>,
    pub gold_trustline_ready: Option<bool>,
    pub gold_reserve_stroops: Option<i128>,
    pub positions: Map<Seq<u8>, UserPosition>,
}

/// The view of an optional account.
pub open spec fn account_view(a: Option<AccountId>) -> Option<Seq<u8>> {
    match a {
        Some(a) => Some(a@),
        None => None,
    }
}

/// The view of an optional string.
pub open spec fn text_view(s: Option<String>) -> Option<Seq<char>> {
    match s {
        Some(s) => Some(s@),
        None => None,
    }
}

/// The yield router: what the contract keeps in storage. A value that is
/// `None` has not been stored yet.
pub struct SmasageYieldRouter {
    pub admin: Option<AccountId>,
    pub soroswap_router: Option<AccountId>,
    pub usdc_token: Option<AccountId>,
    pub xlm_token: Option<AccountId>,
    pub gold_asset_code: Option<String>,
    pub gold_asset_issuer: Option<String>,
    pub gold_trustline_ready: Option<bool>,
    pub gold_reserve_stroops: Option<i128>,
    pub positions: PositionBook,
}

impl View for SmasageYieldRouter {
    type V = RouterView;

    open spec fn view(&self) -> RouterView {
        RouterView {
            admin: account_view(self.admin),
            soroswap_router: account_view(self.soroswap_router),
            usdc_token: account_view(self.usdc_token),
            xlm_token: account_view(self.xlm_token),
            gold_asset_code: text_view(self.gold_asset_code),
            gold_asset_issuer: text_view(self.gold_asset_issuer),
            gold_trustline_ready: self.gold_trustline_ready,
            gold_reserve_stroops: self.gold_reserve_stroops,
            positions: self.positions@,
        }
    }
}

/// The gold asset that the router reports: the stored code and issuer, or
/// the canonical ones where nothing is stored.
pub open spec fn gold_asset_of(v: RouterView) -> (Seq<char>, Seq<char>) {
    (
        match v.gold_asset_code {
            Some(c) => c,
            None => canonical_gold_asset_code(),
        },
        match v.gold_asset_issuer {
            Some(i) => i,
            None => canonical_gold_asset_issuer(),
        },
    )
}

/// Whether the router reports the gold trustline as set up.
pub open spec fn trustline_ready_of(v: RouterView) -> bool {
    match v.gold_trustline_ready {
        Some(b) => b,
        None => false,
    }
}

/// The trustline reserve that the router reports.
pub open spec fn reserve_of(v: RouterView) -> i128 {
    match v.gold_reserve_stroops {
        Some(x) => x,
        None => 0,
    }
}

/// `initialize`: the first caller becomes the admin; a second call is refused.
pub open spec fn initialize_outcome(v: RouterView, admin: Seq<u8>) -> Result<RouterView, RouterError> {
    if v.admin is Some {
        Err(RouterError::AlreadyInitialized)
    } else {
        Ok(RouterView { admin: Some(admin), ..v })
    }
}

/// `initialize_soroswap`: the admin records the Soroswap router and the
/// USDC and XLM tokens.
pub open spec fn initialize_soroswap_outcome(
    v: RouterView,
    admin: Seq<u8>,
    router: Seq<u8>,
    usdc: Seq<u8>,
    xlm: Seq<u8>,
) -> Result<RouterView, RouterError> {
    match v.admin {
        None => Err(RouterError::NotInitialized),
        Some(stored) => if stored != admin {
            Err(RouterError::NotAdminForSoroswap)
        } else {
            Ok(
                RouterView {
                    soroswap_router: Some(router),
                    usdc_token: Some(usdc),
                    xlm_token: Some(xlm),
                    ..v
                },
            )
        },
    }
}

/// `init_gold_trustline`: the admin sets up the gold trustline with a
/// reserve of at least the base reserve.
pub open spec fn init_gold_trustline_outcome(v: RouterView, admin: Seq<u8>, reserve_stroops: i128) -> Result<RouterView, RouterError> {
    match v.admin {
        None => Err(RouterError::NotInitialized),
        Some(stored) => if stored != admin {
            Err(RouterError::NotAdminForGoldTrustline)
        } else if reserve_stroops < TRUSTLINE_BASE_RESERVE_STROOPS {
            Err(RouterError::InsufficientReserve)
        } else {
            Ok(
                RouterView {
                    gold_asset_code: Some(canonical_gold_asset_code()),
                    gold_asset_issuer: Some(canonical_gold_asset_issuer()),
                    gold_trustline_ready: Some(true),
                    gold_reserve_stroops: Some(reserve_stroops),
                    ..v
                },
            )
        },
    }
}

/// `deposit`: `amount` USDC is credited to `from`; `blend_pct`, `lp_pct` and
/// `gold_pct` percent of it are allocated to Blend, to Soroswap liquidity and
/// to gold. The Blend and gold parts are credited here when positive; the
/// liquidity part, when positive, is turned into pool shares by an
/// `LpProvision`, and the gold part, when positive, is bought by a
/// `GoldPurchase`; both need the Soroswap configuration and the ledger.
pub open spec fn deposit_outcome(
    v: RouterView,
    from: Seq<u8>,
    amount: i128,
    blend_pct: u32,
    lp_pct: u32,
    gold_pct: u32,
    sequence: u32,
    timestamp: u64,
) -> Result<RouterView, RouterError> {
    if blend_pct + lp_pct > u32::MAX || blend_pct + lp_pct + gold_pct > u32::MAX {
        Err(RouterError::ArithmeticOverflow)
    } else if blend_pct + lp_pct + gold_pct > 100 {
        Err(RouterError::AllocationExceeds100)
    } else if v.usdc_token is None {
        Err(RouterError::UsdcNotInitialized)
    } else {
        let pos = position_in(v.positions, from);
        let balance = pos.balance + amount;
        let blend_amount = allocation_share(amount as int, blend_pct as int);
        let lp_amount = allocation_share(amount as int, lp_pct as int);
        let gold_amount = allocation_share(amount as int, gold_pct as int);
        let blend = if blend_amount > 0 { pos.blend_balance + blend_amount } else { pos.blend_balance as int };
        let gold = if gold_amount > 0 { pos.gold_balance + gold_amount } else { pos.gold_balance as int };
        if !in_i128(balance) || !in_i128(amount * blend_pct) || !in_i128(blend) {
            Err(RouterError::ArithmeticOverflow)
        } else if lp_pct > 0 && !in_i128(amount * lp_pct) {
            Err(RouterError::ArithmeticOverflow)
        } else if lp_pct > 0 && lp_amount > 0 && provision_error(v, sequence, timestamp) is Some {
            Err(provision_error(v, sequence, timestamp)->0)
        } else if !in_i128(amount * gold_pct) {
            Err(RouterError::ArithmeticOverflow)
        } else if gold_amount > 0 && purchase_error(v, sequence, timestamp) is Some {
            Err(purchase_error(v, sequence, timestamp)->0)
        } else if !in_i128(gold) {
            Err(RouterError::ArithmeticOverflow)
        } else {
            Ok(
                RouterView {
                    positions: v.positions.insert(
                        from,
                        UserPosition {
                            balance: balance as i128,
                            blend_balance: blend as i128,
                            lp_shares: pos.lp_shares,
                            gold_balance: gold as i128,
                        },
                    ),
                    ..v
                },
            )
        }
    }
}

/// The part of a deposit that is exchanged for gold, when the deposit asks
/// for any.
pub open spec fn deposit_gold(amount: i128, gold_pct: u32) -> Option<i128> {
    if allocation_share(amount as int, gold_pct as int) > 0 {
        Some(allocation_share(amount as int, gold_pct as int) as i128)
    } else {
        None
    }
}

/// The part of a deposit that is turned into Soroswap liquidity, when the
/// deposit asks for any.
pub open spec fn deposit_liquidity(amount: i128, lp_pct: u32) -> Option<i128> {
    if lp_pct > 0 && allocation_share(amount as int, lp_pct as int) > 0 {
        Some(allocation_share(amount as int, lp_pct as int) as i128)
    } else {
        None
    }
}

/// Crediting `lp_shares` newly minted pool shares to `user`.
pub open spec fn credit_lp_shares_outcome(v: RouterView, user: Seq<u8>, lp_shares: i128) -> Result<RouterView, RouterError> {
    let pos = position_in(v.positions, user);
    if !in_i128(pos.lp_shares + lp_shares) {
        Err(RouterError::ArithmeticOverflow)
    } else {
        Ok(
            RouterView {
                positions: v.positions.insert(
                    user,
                    UserPosition { lp_shares: (pos.lp_shares + lp_shares) as i128, ..pos },
                ),
                ..v
            },
        )
    }
}

/// `withdraw`: `amount` is drawn from the position of `to` as
/// `withdraw_outcome` says, and paid out in USDC, which needs the USDC
/// token to be configured.
pub open spec fn router_withdraw_outcome(v: RouterView, to: Seq<u8>, amount: i128) -> Result<RouterView, RouterError> {
    match withdraw_outcome(position_in(v.positions, to), amount as int) {
        Ok(p) => if v.usdc_token is None {
            Err(RouterError::UsdcNotInitialized)
        } else {
            Ok(RouterView { positions: v.positions.insert(to, p), ..v })
        },
        Err(e) => Err(e),
    }
}

/// The outcome `o` of an operation on `old`, as `new` and `r` show it: on
/// success the new state, on refusal the same error and no change.
pub open spec fn applied<T>(o: Result<RouterView, RouterError>, old: RouterView, new: RouterView, r: Result<T, RouterError>) -> bool {
    match o {
        Ok(next) => r is Ok && new == next,
        Err(e) => r == Err::<T, RouterError>(e) && new == old,
    }
}

/// What a deposit hands on to the contract host: the USDC token that the
/// deposited amount is transferred with, the liquidity provision, when part
/// of the deposit goes to Soroswap, and the gold purchase, when part of it
/// goes to gold.
pub struct DepositReceipt {
    pub usdc_token: AccountId,
    pub liquidity: Option<LpProvision>,
    pub gold: Option<GoldPurchase>,
}

/// What a withdrawal hands on to the contract host: the USDC token and the
/// amount of it that the contract transfers to the user.
pub struct WithdrawReceipt {
    pub usdc_token: AccountId,
    pub amount: i128,
}

/// Whether `caller` is the stored admin: `NotInitialized` when there is no
/// admin, `mismatch` when it is another account.
fn check_admin(admin: &Option<AccountId>, caller: &AccountId, mismatch: RouterError) -> (r: Result<(), RouterError>)
    ensures
        r == (match account_view(*admin) {
            None => Err(RouterError::NotInitialized),
            Some(stored) => if stored != caller@ {
                Err(mismatch)
            } else {
                Ok(())
            },
        }),
{
    match admin {
        None => Err(RouterError::NotInitialized),
        Some(stored) => if stored.same_as(caller) {
            Ok(())
        } else {
            Err(mismatch)
        },
    }
}

impl SmasageYieldRouter {
    /// A router of which nothing is stored yet.
    pub fn new() -> (r: SmasageYieldRouter)
        ensures
            r@ == (RouterView {
                admin: None,
                soroswap_router: None,
                usdc_token: None,
                xlm_token: None,
                gold_asset_code: None,
                gold_asset_issuer: None,
                gold_trustline_ready: None,
                gold_reserve_stroops: None,
                positions: Map::empty(),
            }),
    {
        SmasageYieldRouter {
            admin: None,
            soroswap_router: None,
            usdc_token: None,
            xlm_token: None,
            gold_asset_code: None,
            gold_asset_issuer: None,
            gold_trustline_ready: None,
            gold_reserve_stroops: None,
            positions: PositionBook::new(),
        }
    }

    /// Makes `admin` the admin of a router that has none.
    pub fn initialize(&mut self, admin: &AccountId) -> (r: Result<(), RouterError>)
        ensures
            applied(initialize_outcome(old(self)@, admin@), old(self)@, final(self)@, r),
    {
        if self.admin.is_some() {
            return Err(RouterError::AlreadyInitialized);
        }
        self.admin = Some(admin.duplicate());
        Ok(())
    }

    /// Records the Soroswap router and the USDC and XLM tokens; only the
    /// admin may do so.
    pub fn initialize_soroswap(&mut self, admin: &AccountId, router: &AccountId, usdc: &AccountId, xlm: &AccountId) -> (r: Result<(), RouterError>)
        ensures
            applied(initialize_soroswap_outcome(old(self)@, admin@, router@, usdc@, xlm@), old(self)@, final(self)@, r),
    {
        check_admin(&self.admin, admin, RouterError::NotAdminForSoroswap)?;
        self.soroswap_router = Some(router.duplicate());
        self.usdc_token = Some(usdc.duplicate());
        self.xlm_token = Some(xlm.duplicate());
        Ok(())
    }

    /// Sets up the gold (XAUT) trustline with `reserve_stroops` of reserve;
    /// only the admin may do so, and with at least the base reserve.
    pub fn init_gold_trustline(&mut self, admin: &AccountId, reserve_stroops: i128) -> (r: Result<(), RouterError>)
        ensures
            applied(init_gold_trustline_outcome(old(self)@, admin@, reserve_stroops), old(self)@, final(self)@, r),
    {
        check_admin(&self.admin, admin, RouterError::NotAdminForGoldTrustline)?;
        if reserve_stroops < TRUSTLINE_BASE_RESERVE_STROOPS {
            return Err(RouterError::InsufficientReserve);
        }
        self.gold_asset_code = Some(gold_asset_code());
        self.gold_asset_issuer = Some(gold_asset_issuer());
        self.gold_reserve_stroops = Some(reserve_stroops);
        self.gold_trustline_ready = Some(true);
        Ok(())
    }

    /// The gold asset: its code and its issuer, as stored, or the canonical
    /// ones where nothing is stored.
    pub fn get_gold_asset(&self) -> (r: (String, String))
        ensures
            (r.0@, r.1@) == gold_asset_of(self@),
    {
        let code = match &self.gold_asset_code {
            Some(c) => c.clone(),
            None => gold_asset_code(),
        };
        let issuer = match &self.gold_asset_issuer {
            Some(i) => i.clone(),
            None => gold_asset_issuer(),
        };
        (code, issuer)
    }

    /// Whether the gold trustline is set up; `false` where nothing is stored.
    pub fn is_gold_trustline_ready(&self) -> (r: bool)
        ensures
            r == trustline_ready_of(self@),
    {
        match self.gold_trustline_ready {
            Some(b) => b,
            None => false,
        }
    }

    /// The reserve of the gold trustline; 0 where nothing is stored.
    pub fn get_gold_reserve_stroops(&self) -> (r: i128)
        ensures
            r == reserve_of(self@),
    {
        match self.gold_reserve_stroops {
            Some(x) => x,
            None => 0,
        }
    }

    /// The gold allocated to `user`.
    pub fn get_gold_balance(&self, user: &AccountId) -> (r: i128)
        ensures
            r == position_in(self@.positions, user@).gold_balance,
    {
        self.positions.position(user).gold_balance
    }

    /// The Soroswap pool shares of `user`.
    pub fn get_lp_shares(&self, user: &AccountId) -> (r: i128)
        ensures
            r == position_in(self@.positions, user@).lp_shares,
    {
        self.positions.position(user).lp_shares
    }

    /// The USDC balance of `user`.
    pub fn get_balance(&self, user: &AccountId) -> (r: i128)
        ensures
            r == position_in(self@.positions, user@).balance,
    {
        self.positions.position(user).balance
    }

    /// What to ask of the tokens and of the Soroswap router to turn
    /// `usdc_amount` of `user`'s USDC into pool shares, at the ledger with
    /// sequence number `ledger_sequence` and timestamp `ledger_timestamp`.
    pub fn provide_lp(&self, user: &AccountId, usdc_amount: i128, ledger_sequence: u32, ledger_timestamp: u64) -> (r: Result<LpProvision, RouterError>)
        ensures
            match provision_error(self@, ledger_sequence, ledger_timestamp) {
                Some(e) => r == Err::<LpProvision, RouterError>(e),
                None => r matches Ok(p) && p.describes(self@, user@, usdc_amount, ledger_sequence, ledger_timestamp),
            },
    {
        let router = match &self.soroswap_router {
            Some(a) => a.duplicate(),
            None => return Err(RouterError::SoroswapNotInitialized),
        };
        let usdc_token = match &self.usdc_token {
            Some(a) => a.duplicate(),
            None => return Err(RouterError::UsdcNotInitialized),
        };
        let xlm_token = match &self.xlm_token {
            Some(a) => a.duplicate(),
            None => return Err(RouterError::XlmNotInitialized),
        };
        let swap_amount = usdc_amount.checked_div(2).unwrap();
        let liquidity_usdc = usdc_amount - swap_amount;
        let expiration_ledger = match ledger_sequence.checked_add(APPROVAL_LEDGERS) {
            Some(e) => e,
            None => return Err(RouterError::ArithmeticOverflow),
        };
        let deadline = match ledger_timestamp.checked_add(SWAP_DEADLINE_SECONDS) {
            Some(d) => d,
            None => return Err(RouterError::ArithmeticOverflow),
        };
        Ok(
            LpProvision {
                router,
                usdc_token,
                xlm_token,
                user: user.duplicate(),
                usdc_amount,
                swap_amount,
                min_swap_output: 0,
                liquidity_usdc,
                min_liquidity_usdc: 0,
                min_liquidity_xlm: 0,
                expiration_ledger,
                deadline,
            },
        )
    }

    /// Takes a deposit of `amount` USDC from `from`, allocating `blend_percentage`,
    /// `lp_percentage` and `gold_percentage` percent of it, at the ledger with
    /// sequence number `ledger_sequence` and timestamp `ledger_timestamp`. The
    /// receipt names the USDC token that `amount` is transferred with and,
    /// when the deposit asks for liquidity, the provision that buys it; the
    /// shares it mints are credited with `credit_lp_shares`.
    pub fn deposit(
        &mut self,
        from: &AccountId,
        amount: i128,
        blend_percentage: u32,
        lp_percentage: u32,
        gold_percentage: u32,
        ledger_sequence: u32,
        ledger_timestamp: u64,
    ) -> (r: Result<DepositReceipt, RouterError>)
        ensures
            applied(
                deposit_outcome(old(self)@, from@, amount, blend_percentage, lp_percentage, gold_percentage, ledger_sequence, ledger_timestamp),
                old(self)@,
                final(self)@,
                r,
            ),
            r matches Ok(receipt) ==> {
                &&& Some(receipt.usdc_token@) == old(self)@.usdc_token
                &&& match deposit_liquidity(amount, lp_percentage) {
                    None => receipt.liquidity is None,
                    Some(lp_amount) => receipt.liquidity matches Some(p) && p.describes(
                        old(self)@,
                        from@,
                        lp_amount,
                        ledger_sequence,
                        ledger_timestamp,
                    ),
                }
                &&& match deposit_gold(amount, gold_percentage) {
                    None => receipt.gold is None,
                    Some(gold_amount) => receipt.gold matches Some(g) && g.describes(
                        old(self)@,
                        gold_amount,
                        ledger_sequence,
                        ledger_timestamp,
                    ),
                }
            },
    {
        let partial = match blend_percentage.checked_add(lp_percentage) {
            Some(s) => s,
            None => return Err(RouterError::ArithmeticOverflow),
        };
        let allocated = match partial.checked_add(gold_percentage) {
            Some(s) => s,
            None => return Err(RouterError::ArithmeticOverflow),
        };
        if allocated > 100 {
            return Err(RouterError::AllocationExceeds100);
        }
        let usdc_token = match &self.usdc_token {
            Some(a) => a.duplicate(),
            None => return Err(RouterError::UsdcNotInitialized),
        };
        let pos = self.positions.position(from);
        let balance = match pos.balance.checked_add(amount) {
            Some(b) => b,
            None => return Err(RouterError::ArithmeticOverflow),
        };
        let blend_amount = match share_of(amount, blend_percentage) {
            Some(x) => x,
            None => return Err(RouterError::ArithmeticOverflow),
        };
        let mut blend_balance = pos.blend_balance;
        if blend_amount > 0 {
            blend_balance = match blend_balance.checked_add(blend_amount) {
                Some(b) => b,
                None => return Err(RouterError::ArithmeticOverflow),
            };
        }
        let mut liquidity: Option<LpProvision> = None;
        if lp_percentage > 0 {
            let lp_amount = match share_of(amount, lp_percentage) {
                Some(x) => x,
                None => return Err(RouterError::ArithmeticOverflow),
            };
            if lp_amount > 0 {
                liquidity = Some(self.provide_lp(from, lp_amount, ledger_sequence, ledger_timestamp)?);
            }
        }
        let gold_amount = match share_of(amount, gold_percentage) {
            Some(x) => x,
            None => return Err(RouterError::ArithmeticOverflow),
        };
        let mut gold_balance = pos.gold_balance;
        let mut gold: Option<GoldPurchase> = None;
        if gold_amount > 0 {
            gold = Some(self.plan_gold_purchase(gold_amount, ledger_sequence, ledger_timestamp)?);
            gold_balance = match gold_balance.checked_add(gold_amount) {
                Some(b) => b,
                None => return Err(RouterError::ArithmeticOverflow),
            };
        }
        self.positions.set(
            from,
            UserPosition { balance, blend_balance, lp_shares: pos.lp_shares, gold_balance },
        );
        Ok(DepositReceipt { usdc_token, liquidity, gold })
    }

    /// What to ask of the USDC token and of the DEX router to exchange
    /// `usdc_amount` USDC for gold, at the ledger with sequence number
    /// `ledger_sequence` and timestamp `ledger_timestamp`.
    pub fn plan_gold_purchase(&self, usdc_amount: i128, ledger_sequence: u32, ledger_timestamp: u64) -> (r: Result<GoldPurchase, RouterError>)
        ensures
            match purchase_error(self@, ledger_sequence, ledger_timestamp) {
                Some(e) => r == Err::<GoldPurchase, RouterError>(e),
                None => r matches Ok(g) && g.describes(self@, usdc_amount, ledger_sequence, ledger_timestamp),
            },
    {
        let router = match &self.soroswap_router {
            Some(a) => a.duplicate(),
            None => return Err(RouterError::SoroswapNotInitialized),
        };
        let usdc_token = match &self.usdc_token {
            Some(a) => a.duplicate(),
            None => return Err(RouterError::UsdcNotInitialized),
        };
        let expiration_ledger = match ledger_sequence.checked_add(APPROVAL_LEDGERS) {
            Some(e) => e,
            None => return Err(RouterError::ArithmeticOverflow),
        };
        let deadline = match ledger_timestamp.checked_add(SWAP_DEADLINE_SECONDS) {
            Some(d) => d,
            None => return Err(RouterError::ArithmeticOverflow),
        };
        let (gold_asset_code, gold_asset_issuer) = self.get_gold_asset();
        Ok(
            GoldPurchase {
                router,
                usdc_token,
                gold_asset_code,
                gold_asset_issuer,
                usdc_amount,
                min_gold_received: 0,
                expiration_ledger,
                deadline,
            },
        )
    }

    /// Credits `lp_shares` pool shares, minted by a provision, to `user`.
    pub fn credit_lp_shares(&mut self, user: &AccountId, lp_shares: i128) -> (r: Result<(), RouterError>)
        ensures
            applied(credit_lp_shares_outcome(old(self)@, user@, lp_shares), old(self)@, final(self)@, r),
    {
        let pos = self.positions.position(user);
        let shares = match pos.lp_shares.checked_add(lp_shares) {
            Some(s) => s,
            None => return Err(RouterError::ArithmeticOverflow),
        };
        self.positions.set(user, UserPosition { lp_shares: shares, ..pos });
        Ok(())
    }

    /// Withdraws `amount` for `to`, drawing on USDC first, then Blend, then
    /// the pool shares, then gold, as `withdraw_outcome` says. The receipt
    /// names the USDC token and the amount that the contract transfers to `to`.
    pub fn withdraw(&mut self, to: &AccountId, amount: i128) -> (r: Result<WithdrawReceipt, RouterError>)
        ensures
            applied(router_withdraw_outcome(old(self)@, to@, amount), old(self)@, final(self)@, r),
            r matches Ok(receipt) ==> Some(receipt.usdc_token@) == old(self)@.usdc_token
                && receipt.amount == amount,
    {
        let pos = self.positions.position(to);
        let next = pos.withdraw(amount)?;
        let usdc_token = match &self.usdc_token {
            Some(a) => a.duplicate(),
            None => return Err(RouterError::UsdcNotInitialized),
        };
        self.positions.set(to, next);
        Ok(WithdrawReceipt { usdc_token, amount })
    }
}

} // verus!
