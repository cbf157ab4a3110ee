use smasage::account::AccountId;
use smasage::book::PositionBook;
use smasage::error::RouterError;
use smasage::gold::{account_key_from_address_xdr, stellar_asset_xdr};
use smasage::position::{share_of, UserPosition};
use smasage::router::SmasageYieldRouter;

fn account(name: &str) -> AccountId {
    AccountId::new(name.as_bytes().to_vec())
}

fn configured() -> (SmasageYieldRouter, AccountId) {
    let mut router = SmasageYieldRouter::new();
    let admin = account("GADMIN");
    router.initialize(&admin).unwrap();
    router
        .initialize_soroswap(&admin, &account("CROUTER"), &account("CUSDC"), &account("CXLM"))
        .unwrap();
    (router, admin)
}

fn position(balance: i128, blend: i128, lp: i128, gold: i128) -> UserPosition {
    UserPosition { balance, blend_balance: blend, lp_shares: lp, gold_balance: gold }
}

#[test]
fn accounts_compare_by_bytes() {
    assert!(account("GABC").same_as(&account("GABC")));
    assert!(!account("GABC").same_as(&account("GABD")));
    assert!(!account("GABC").same_as(&account("GABCD")));
    assert!(account("GABC").duplicate().same_as(&account("GABC")));
}

#[test]
fn book_keeps_one_position_per_account() {
    let mut book = PositionBook::new();
    let a = account("GA");
    let b = account("GB");
    assert_eq!(book.position(&a), position(0, 0, 0, 0));
    book.set(&a, position(1, 2, 3, 4));
    book.set(&b, position(5, 6, 7, 8));
    book.set(&a, position(9, 0, 0, 0));
    assert_eq!(book.position(&a), position(9, 0, 0, 0));
    assert_eq!(book.position(&b), position(5, 6, 7, 8));
}

#[test]
fn initialize_is_refused_a_second_time() {
    let mut router = SmasageYieldRouter::new();
    router.initialize(&account("GADMIN")).unwrap();
    assert_eq!(router.initialize(&account("GOTHER")), Err(RouterError::AlreadyInitialized));
    assert_eq!(router.initialize(&account("GADMIN")), Err(RouterError::AlreadyInitialized));
    assert!(router.admin.as_ref().unwrap().same_as(&account("GADMIN")));
}

#[test]
fn configuration_needs_an_admin() {
    let mut router = SmasageYieldRouter::new();
    let admin = account("GADMIN");
    assert_eq!(
        router.initialize_soroswap(&admin, &account("CR"), &account("CU"), &account("CX")),
        Err(RouterError::NotInitialized)
    );
    assert_eq!(router.init_gold_trustline(&admin, 5_000_000), Err(RouterError::NotInitialized));
    router.initialize(&admin).unwrap();
    let intruder = account("GINTRUDER");
    assert_eq!(
        router.initialize_soroswap(&intruder, &account("CR"), &account("CU"), &account("CX")),
        Err(RouterError::NotAdminForSoroswap)
    );
    assert!(router.soroswap_router.is_none());
    assert_eq!(router.init_gold_trustline(&intruder, 5_000_000), Err(RouterError::NotAdminForGoldTrustline));
    assert!(!router.is_gold_trustline_ready());
}

#[test]
fn trustline_needs_the_base_reserve() {
    let mut router = SmasageYieldRouter::new();
    let admin = account("GADMIN");
    router.initialize(&admin).unwrap();
    assert_eq!(router.init_gold_trustline(&admin, 4_999_999), Err(RouterError::InsufficientReserve));
    assert!(!router.is_gold_trustline_ready());
    assert_eq!(router.get_gold_reserve_stroops(), 0);
    router.init_gold_trustline(&admin, 7_500_000).unwrap();
    assert_eq!(router.get_gold_reserve_stroops(), 7_500_000);
}

#[test]
fn gold_asset_is_canonical_before_setup() {
    let router = SmasageYieldRouter::new();
    let (code, issuer) = router.get_gold_asset();
    assert_eq!(code, "XAUT");
    assert_eq!(issuer, "GCRLXTLD7XIRXWXV2PDCC74O5TUUKN3OODJAM6TWVE4AIRNMGQJK3KWQ");
    assert!(!router.is_gold_trustline_ready());
}

#[test]
fn deposit_needs_usdc() {
    let mut router = SmasageYieldRouter::new();
    router.initialize(&account("GADMIN")).unwrap();
    let user = account("GUSER");
    assert_eq!(router.deposit(&user, 1000, 10, 0, 0, 0, 0).err(), Some(RouterError::UsdcNotInitialized));
    assert_eq!(router.get_balance(&user), 0);
}

#[test]
fn deposit_allocates_by_percentage() {
    let (mut router, _admin) = configured();
    let user = account("GUSER");
    let receipt = router.deposit(&user, 1000, 60, 30, 10, 7, 1_000).unwrap();
    assert!(receipt.usdc_token.same_as(&account("CUSDC")));
    assert_eq!(router.get_balance(&user), 1000);
    assert_eq!(router.positions.position(&user).blend_balance, 600);
    assert_eq!(router.get_gold_balance(&user), 100);
    assert_eq!(router.get_lp_shares(&user), 0);
    let provision = receipt.liquidity.unwrap();
    assert_eq!(provision.usdc_amount, 300);
    assert_eq!(provision.swap_amount, 150);
    assert_eq!(provision.liquidity_usdc, 150);
    assert_eq!(provision.expiration_ledger, 107);
    assert_eq!(provision.deadline, 1_300);
    assert!(provision.user.same_as(&user));
    let gold = receipt.gold.unwrap();
    assert_eq!(gold.usdc_amount, 100);
    assert_eq!(gold.min_gold_received, 0);
    assert_eq!(gold.gold_asset_code, "XAUT");
    assert_eq!(gold.gold_asset_issuer, "GCRLXTLD7XIRXWXV2PDCC74O5TUUKN3OODJAM6TWVE4AIRNMGQJK3KWQ");
    assert!(gold.router.same_as(&account("CROUTER")));
    assert!(gold.usdc_token.same_as(&account("CUSDC")));
    assert_eq!(gold.expiration_ledger, 107);
    assert_eq!(gold.deadline, 1_300);
}

#[test]
fn gold_needs_soroswap() {
    let mut router = SmasageYieldRouter::new();
    router.initialize(&account("GADMIN")).unwrap();
    router.usdc_token = Some(account("CUSDC"));
    let user = account("GUSER");
    assert_eq!(router.deposit(&user, 1000, 0, 0, 10, 0, 0).err(), Some(RouterError::SoroswapNotInitialized));
    assert_eq!(router.get_gold_balance(&user), 0);
    assert!(router.deposit(&user, 1000, 0, 0, 0, 0, 0).unwrap().gold.is_none());
}

#[test]
fn gold_asset_xdr() {
    let key = vec![7u8; 32];
    let mut expected = vec![0u8, 0, 0, 1, b'X', b'A', b'U', b'T', 0, 0, 0, 0];
    expected.extend_from_slice(&key);
    assert_eq!(stellar_asset_xdr(&b"XAUT".to_vec(), &key), Some(expected));
    let mut long = vec![0u8, 0, 0, 2, b'G', b'O', b'L', b'D', b'X', 0, 0, 0, 0, 0, 0, 0, 0, 0, 0, 0];
    long.extend_from_slice(&key);
    assert_eq!(stellar_asset_xdr(&b"GOLDX".to_vec(), &key), Some(long));
    assert_eq!(stellar_asset_xdr(&vec![], &key), None);
    assert_eq!(stellar_asset_xdr(&b"ABCDEFGHIJKLM".to_vec(), &key), None);
    assert_eq!(stellar_asset_xdr(&b"XAUT".to_vec(), &vec![7u8; 31]), None);
}

#[test]
fn account_key_from_xdr() {
    let key: Vec<u8> = (0u8..32).collect();
    let mut xdr = vec![0u8, 0, 0, 18, 0, 0, 0, 0, 0, 0, 0, 0];
    xdr.extend_from_slice(&key);
    assert_eq!(account_key_from_address_xdr(&xdr), Some(key.clone()));
    let mut contract = xdr.clone();
    contract[7] = 1;
    assert_eq!(account_key_from_address_xdr(&contract), None);
    assert_eq!(account_key_from_address_xdr(&xdr[..43].to_vec()), None);
}

#[test]
fn deposit_rounds_shares_towards_zero() {
    assert_eq!(share_of(999, 33), Some(329));
    assert_eq!(share_of(-999, 33), Some(-329));
    assert_eq!(share_of(99, 1), Some(0));
    assert_eq!(share_of(i128::MAX, 2), None);
}

#[test]
fn small_deposit_skips_empty_allocations() {
    let (mut router, _admin) = configured();
    let user = account("GUSER");
    let receipt = router.deposit(&user, 1, 30, 30, 30, 0, 0).unwrap();
    assert!(receipt.liquidity.is_none());
    assert!(receipt.gold.is_none());
    assert_eq!(router.positions.position(&user), position(1, 0, 0, 0));
}

#[test]
fn deposit_percentages_that_overflow_are_refused() {
    let (mut router, _admin) = configured();
    let user = account("GUSER");
    assert_eq!(
        router.deposit(&user, 1000, u32::MAX, 1, 0, 0, 0).err(),
        Some(RouterError::ArithmeticOverflow)
    );
    assert_eq!(router.get_balance(&user), 0);
}

#[test]
fn liquidity_needs_soroswap_and_xlm() {
    let mut router = SmasageYieldRouter::new();
    router.initialize(&account("GADMIN")).unwrap();
    router.usdc_token = Some(account("CUSDC"));
    let user = account("GUSER");
    assert_eq!(router.deposit(&user, 1000, 0, 50, 0, 0, 0).err(), Some(RouterError::SoroswapNotInitialized));
    router.soroswap_router = Some(account("CROUTER"));
    assert_eq!(router.deposit(&user, 1000, 0, 50, 0, 0, 0).err(), Some(RouterError::XlmNotInitialized));
    assert_eq!(router.get_balance(&user), 0);
    router.xlm_token = Some(account("CXLM"));
    assert_eq!(router.deposit(&user, 1000, 0, 50, 0, u32::MAX, 0).err(), Some(RouterError::ArithmeticOverflow));
    assert!(router.deposit(&user, 1000, 0, 50, 0, 0, 0).is_ok());
}

#[test]
fn provision_splits_odd_amounts() {
    let (router, _admin) = configured();
    let user = account("GUSER");
    let provision = router.provide_lp(&user, 1001, 0, 0).unwrap();
    assert_eq!(provision.swap_amount, 500);
    assert_eq!(provision.liquidity_usdc, 501);
    assert_eq!(provision.min_swap_output, 0);
    let path = provision.swap_path();
    assert!(path[0].same_as(&account("CUSDC")));
    assert!(path[1].same_as(&account("CXLM")));
}

#[test]
fn received_xlm_is_the_second_swap_amount() {
    let (router, _admin) = configured();
    let provision = router.provide_lp(&account("GUSER"), 100, 0, 0).unwrap();
    assert_eq!(provision.received_xlm(&vec![50, 100]), Ok(100));
    assert_eq!(provision.received_xlm(&vec![50]), Err(RouterError::MissingSwapOutput));
}

#[test]
fn lp_shares_accumulate() {
    let (mut router, _admin) = configured();
    let user = account("GUSER");
    router.credit_lp_shares(&user, 100).unwrap();
    router.credit_lp_shares(&user, 40).unwrap();
    assert_eq!(router.get_lp_shares(&user), 140);
    assert_eq!(router.credit_lp_shares(&user, i128::MAX), Err(RouterError::ArithmeticOverflow));
    assert_eq!(router.get_lp_shares(&user), 140);
}

#[test]
fn withdraw_drains_buckets_in_order() {
    let p = position(100, 200, 300, 400);
    assert_eq!(p.withdraw(650), Ok(position(0, 0, 0, 350)));
    assert_eq!(p.withdraw(250), Ok(position(0, 50, 300, 400)));
    assert_eq!(p.withdraw(1000), Ok(position(0, 0, 0, 0)));
    assert_eq!(p.withdraw(1001), Err(RouterError::InsufficientBalance));
}

#[test]
fn withdraw_of_negative_amount_is_refused() {
    assert_eq!(position(10, 0, 0, 0).withdraw(-5), Err(RouterError::NegativeAmount));
    assert_eq!(position(0, 10, 0, 0).withdraw(-5), Err(RouterError::NegativeAmount));
    assert_eq!(position(1, 0, 0, 0).withdraw(i128::MIN), Err(RouterError::NegativeAmount));
    assert_eq!(position(-10, 0, 0, 0).withdraw(-5), Err(RouterError::InsufficientBalance));
    assert_eq!(position(-10, 0, 0, 0).withdraw(-10), Err(RouterError::NegativeAmount));
    let (mut router, _admin) = configured();
    let user = account("GUSER");
    router.deposit(&user, 10, 0, 0, 0, 0, 0).unwrap();
    assert_eq!(router.withdraw(&user, -5).err(), Some(RouterError::NegativeAmount));
    assert_eq!(router.get_balance(&user), 10);
}

#[test]
fn withdraw_pays_out_in_usdc() {
    let (mut router, _admin) = configured();
    let user = account("GUSER");
    router.deposit(&user, 700, 50, 0, 0, 0, 0).unwrap();
    let receipt = router.withdraw(&user, 720).unwrap();
    assert!(receipt.usdc_token.same_as(&account("CUSDC")));
    assert_eq!(receipt.amount, 720);
    assert_eq!(router.positions.position(&user), position(0, 330, 0, 0));
}

#[test]
fn withdraw_needs_usdc() {
    let mut router = SmasageYieldRouter::new();
    let user = account("GUSER");
    router.positions.set(&user, position(100, 0, 0, 0));
    assert_eq!(router.withdraw(&user, 50).err(), Some(RouterError::UsdcNotInitialized));
    assert_eq!(router.get_balance(&user), 100);
}

#[test]
fn withdraw_with_overflowing_total_is_refused() {
    assert_eq!(position(i128::MAX, 1, 0, 0).withdraw(1), Err(RouterError::ArithmeticOverflow));
    assert_eq!(position(i128::MIN, -1, 0, 0).withdraw(0), Err(RouterError::ArithmeticOverflow));
}

#[test]
fn withdraw_leaves_other_users_alone() {
    let (mut router, _admin) = configured();
    let alice = account("GALICE");
    let bob = account("GBOB");
    router.deposit(&alice, 1000, 20, 0, 20, 0, 0).unwrap();
    router.deposit(&bob, 300, 0, 0, 0, 0, 0).unwrap();
    router.withdraw(&alice, 1100).unwrap();
    assert_eq!(router.positions.position(&alice), position(0, 100, 0, 200));
    assert_eq!(router.positions.position(&bob), position(300, 0, 0, 0));
    assert_eq!(router.withdraw(&bob, 301).err(), Some(RouterError::InsufficientBalance));
    assert_eq!(router.get_balance(&bob), 300);
}

#[test]
fn deposit_then_withdraw_restores_usdc() {
    let (mut router, _admin) = configured();
    let user = account("GUSER");
    router.deposit(&user, 50, 0, 0, 0, 0, 0).unwrap();
    router.deposit(&user, 1000, 40, 0, 40, 0, 0).unwrap();
    router.withdraw(&user, 1000).unwrap();
    assert_eq!(router.positions.position(&user), position(50, 400, 0, 400));
}

#[test]
fn error_messages() {
    assert_eq!(RouterError::AlreadyInitialized.message(), "Already initialized");
    assert_eq!(RouterError::NotInitialized.message(), "Contract not initialized");
    assert_eq!(RouterError::NotAdminForSoroswap.message(), "Only admin can initialize Soroswap");
    assert_eq!(RouterError::NotAdminForGoldTrustline.message(), "Only admin can initialize Gold trustline");
    assert_eq!(RouterError::InsufficientReserve.message(), "Insufficient base reserve for trustline");
    assert_eq!(RouterError::InsufficientBalance.message(), "Insufficient balance");
    assert_eq!(RouterError::NegativeAmount.message(), "Withdrawal amount must not be negative");
    assert_eq!(RouterError::InvalidGoldAsset.message(), "Invalid gold asset");
    assert_eq!(RouterError::WithdrawalCalculationFailed.message(), "Withdrawal calculation failed");
    assert_eq!(RouterError::UsdcNotInitialized.message(), "USDC not initialized");
    assert_eq!(RouterError::SoroswapNotInitialized.message(), "Soroswap not initialized");
    assert_eq!(RouterError::XlmNotInitialized.message(), "XLM not initialized");
}
