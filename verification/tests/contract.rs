use smasage::account::AccountId;
use smasage::error::RouterError;
use smasage::router::SmasageYieldRouter;

const ISSUER: &str = "GCRLXTLD7XIRXWXV2PDCC74O5TUUKN3OODJAM6TWVE4AIRNMGQJK3KWQ";

fn account(name: &str) -> AccountId {
    AccountId::new(name.as_bytes().to_vec())
}

/// A router with an admin and the Soroswap router, USDC and XLM configured.
fn setup_router() -> (SmasageYieldRouter, AccountId) {
    let mut router = SmasageYieldRouter::new();
    let admin = account("GADMIN");
    router.initialize(&admin).unwrap();
    router
        .initialize_soroswap(&admin, &account("CROUTER"), &account("CUSDC"), &account("CXLM"))
        .unwrap();
    (router, admin)
}

/// A deposit carried through the liquidity provision against a router
/// that swaps USDC for twice as much XLM and mints 100 pool shares.
fn deposit_through_mock_router(
    router: &mut SmasageYieldRouter,
    user: &AccountId,
    amount: i128,
    blend: u32,
    lp: u32,
    gold: u32,
) -> Result<(), RouterError> {
    let receipt = router.deposit(user, amount, blend, lp, gold, 0, 0)?;
    if let Some(provision) = receipt.liquidity {
        let swap_amounts = vec![provision.swap_amount, provision.swap_amount * 2];
        let _xlm = provision.received_xlm(&swap_amounts)?;
        router.credit_lp_shares(&provision.user, 100)?;
    }
    if let Some(purchase) = receipt.gold {
        assert!(purchase.usdc_amount > 0);
    }
    Ok(())
}

#[test]
fn test_initialize_gold_trustline() {
    let mut router = SmasageYieldRouter::new();
    let admin = account("GADMIN");
    router.initialize(&admin).unwrap();
    router.init_gold_trustline(&admin, 5_000_000).unwrap();

    let (asset_code, asset_issuer) = router.get_gold_asset();
    assert_eq!(asset_code, "XAUT");
    assert_eq!(asset_issuer, ISSUER);
    assert!(router.is_gold_trustline_ready());
    assert_eq!(router.get_gold_reserve_stroops(), 5_000_000);
}

#[test]
fn test_deposit_and_withdraw() {
    let (mut router, _admin) = setup_router();
    let user = account("GUSER");

    deposit_through_mock_router(&mut router, &user, 1000, 60, 30, 10).unwrap();
    assert_eq!(router.get_balance(&user), 1000);

    router.withdraw(&user, 500).unwrap();
    assert_eq!(router.get_balance(&user), 500);
}

#[test]
fn test_soroswap_lp_basic() {
    let (mut router, _admin) = setup_router();
    let user = account("GUSER");

    deposit_through_mock_router(&mut router, &user, 1000, 0, 50, 0).unwrap();

    assert_eq!(router.get_balance(&user), 1000);
    assert_eq!(router.get_lp_shares(&user), 100);
}

#[test]
#[should_panic(expected = "Allocation exceeds 100%")]
fn test_allocation_exceeds_100_percent() {
    let (mut router, _admin) = setup_router();
    let user = account("GUSER");

    if let Err(e) = deposit_through_mock_router(&mut router, &user, 1000, 60, 50, 0) {
        panic!("{}", e.message());
    }
}
