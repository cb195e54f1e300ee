use base_token::token::Contract;
use base_token::token::Event;
use base_token::token::NativeTransfer;
use base_token::token::SetSaleOptions;
use base_token::token::TokenBought;
use base_token::Error;

const DEPLOYER: u64 = 1;
const ALICE: u64 = 2;
const BOB: u64 = 3;

fn fresh(
    initial_supply: u128,
    is_pausable: bool,
    is_mintable: bool,
    is_burnable: bool,
    is_sale: bool,
) -> Contract {
    Contract::new(
        initial_supply,
        Some(String::from("Base Token")),
        Some(String::from("BT")),
        12,
        is_pausable,
        is_mintable,
        is_burnable,
        is_sale,
        DEPLOYER,
    )
}

#[test]
fn construction_mints_initial_supply_to_deployer() {
    let c = fresh(1000, false, false, false, false);
    assert_eq!(c.total_supply(), 1000);
    assert_eq!(c.balance_of(DEPLOYER), 1000);
    assert_eq!(c.balance_of(ALICE), 0);
    assert!(c.events.is_empty());
    assert!(c.transfers.is_empty());
    assert!(!c.paused);
}

#[test]
fn construction_stores_metadata_and_flags() {
    let c = fresh(0, true, false, true, false);
    assert_eq!(c.metadata.name, Some(String::from("Base Token")));
    assert_eq!(c.metadata.symbol, Some(String::from("BT")));
    assert_eq!(c.metadata.decimals, 12);
    assert_eq!(c.get_is_pausable(), Ok(true));
    assert_eq!(c.get_is_mintable(), Ok(false));
    assert_eq!(c.get_is_burnable(), Ok(true));
    assert_eq!(c.get_is_sale(), Ok(false));
}

#[test]
fn construction_assigns_owner_only_for_mint_or_pause() {
    let with_mint = fresh(0, false, true, false, false);
    assert_eq!(with_mint.features.owner, Some(DEPLOYER));
    let with_pause = fresh(0, true, false, false, false);
    assert_eq!(with_pause.features.owner, Some(DEPLOYER));
    let sale_only = fresh(0, false, false, true, true);
    assert_eq!(sale_only.features.owner, None);
}

#[test]
fn sale_getters_fail_before_configuration() {
    let c = fresh(0, false, true, false, true);
    assert_eq!(c.get_sale_price(), Err(Error::NotConfigured));
    assert_eq!(c.get_start_at(), Err(Error::NotConfigured));
    assert_eq!(c.get_end_at(), Err(Error::NotConfigured));
    assert_eq!(c.get_max_supply(), Err(Error::NotConfigured));
}

#[test]
fn set_sale_options_overwrites_all_four_fields() {
    let mut c = fresh(0, false, true, false, true);
    assert_eq!(c.set_sale_options(DEPLOYER, 5, 2000, 100, 200), Ok(()));
    assert_eq!(c.get_sale_price(), Ok(5));
    assert_eq!(c.get_max_supply(), Ok(2000));
    assert_eq!(c.get_start_at(), Ok(100));
    assert_eq!(c.get_end_at(), Ok(200));
    // A second call replaces every field at once.
    assert_eq!(c.set_sale_options(DEPLOYER, 7, 3000, 150, 250), Ok(()));
    assert_eq!(c.get_sale_price(), Ok(7));
    assert_eq!(c.get_max_supply(), Ok(3000));
    assert_eq!(c.get_start_at(), Ok(150));
    assert_eq!(c.get_end_at(), Ok(250));
    assert_eq!(
        c.events,
        vec![
            Event::SetSaleOptions(SetSaleOptions {
                sale_price: 5,
                max_supply: 2000,
                start_at: 100,
                end_at: 200,
            }),
            Event::SetSaleOptions(SetSaleOptions {
                sale_price: 7,
                max_supply: 3000,
                start_at: 150,
                end_at: 250,
            }),
        ]
    );
}

#[test]
fn set_sale_options_rejects_non_owner() {
    let mut c = fresh(0, false, true, false, true);
    assert_eq!(c.set_sale_options(ALICE, 5, 2000, 100, 200), Err(Error::NotOwner));
    assert_eq!(c.get_sale_price(), Err(Error::NotConfigured));
    assert!(c.events.is_empty());
}

#[test]
fn set_sale_options_without_owner_is_not_configured() {
    // With neither minting nor pausing enabled, no owner was ever assigned,
    // so the owner-gated configuration call cannot succeed.
    let mut c = fresh(1000, false, false, false, true);
    assert_eq!(c.set_sale_options(DEPLOYER, 5, 2000, 100, 200), Err(Error::NotConfigured));
}

#[test]
fn mint_to_succeeds_only_for_owner_with_feature() {
    let mut c = fresh(100, false, true, false, false);
    assert_eq!(c.mint_to(DEPLOYER, ALICE, 40), Ok(()));
    assert_eq!(c.balance_of(ALICE), 40);
    assert_eq!(c.total_supply(), 140);

    assert_eq!(c.mint_to(ALICE, ALICE, 40), Err(Error::NotOwner));
    assert_eq!(c.total_supply(), 140);

    let mut no_mint = fresh(100, true, false, false, false);
    assert_eq!(no_mint.mint_to(DEPLOYER, ALICE, 40), Err(Error::FeatureNotEnabled));
    assert_eq!(no_mint.total_supply(), 100);
}

#[test]
fn mint_to_is_not_bounded_by_max_supply() {
    let mut c = fresh(100, false, true, false, true);
    assert_eq!(c.set_sale_options(DEPLOYER, 1, 150, 0, 10), Ok(()));
    // Owner-initiated minting ignores the sale's supply cap.
    assert_eq!(c.mint_to(DEPLOYER, ALICE, 1000), Ok(()));
    assert_eq!(c.total_supply(), 1100);
}

#[test]
fn burn_decreases_balance_and_supply() {
    let mut c = fresh(100, false, false, true, false);
    assert_eq!(c.burn(DEPLOYER, 30), Ok(()));
    assert_eq!(c.balance_of(DEPLOYER), 70);
    assert_eq!(c.total_supply(), 70);
}

#[test]
fn burn_needs_no_owner_but_needs_the_feature() {
    let mut c = fresh(100, false, true, true, false);
    assert_eq!(c.mint_to(DEPLOYER, ALICE, 50), Ok(()));
    // Alice is not the owner, yet she may burn her own tokens.
    assert_eq!(c.burn(ALICE, 20), Ok(()));
    assert_eq!(c.balance_of(ALICE), 30);
    assert_eq!(c.total_supply(), 130);

    let mut no_burn = fresh(100, false, false, false, false);
    assert_eq!(no_burn.burn(DEPLOYER, 20), Err(Error::FeatureNotEnabled));
    assert_eq!(no_burn.total_supply(), 100);
}

#[test]
fn burn_fails_on_short_balance() {
    let mut c = fresh(100, false, false, true, false);
    assert_eq!(c.burn(DEPLOYER, 101), Err(Error::InsufficientBalance));
    assert_eq!(c.balance_of(DEPLOYER), 100);
    assert_eq!(c.total_supply(), 100);
    assert_eq!(c.burn(ALICE, 1), Err(Error::InsufficientBalance));
    // Burning nothing from an empty account is owed nothing and takes nothing.
    assert_eq!(c.burn(ALICE, 0), Ok(()));
    assert_eq!(c.total_supply(), 100);
}

fn sale_ready() -> Contract {
    let mut c = fresh(1000, true, false, false, true);
    assert_eq!(c.set_sale_options(DEPLOYER, 5, 2000, 100, 200), Ok(()));
    c
}

#[test]
fn buy_succeeds_inside_the_window() {
    let mut c = sale_ready();
    assert_eq!(c.buy(ALICE, 150, 60, 10), Ok(10));
    assert_eq!(c.balance_of(ALICE), 10);
    assert_eq!(c.total_supply(), 1010);
    // The full attached payment is forwarded, not only the 50 owed.
    assert_eq!(c.transfers, vec![NativeTransfer { to: DEPLOYER, value: 60 }]);
    assert_eq!(
        c.events.last(),
        Some(&Event::TokenBought(TokenBought { receiver_address: ALICE, amount: 10 }))
    );
}

#[test]
fn buy_window_is_inclusive_at_both_ends() {
    let mut c = sale_ready();
    assert_eq!(c.buy(ALICE, 100, 50, 10), Ok(10));
    assert_eq!(c.buy(ALICE, 200, 50, 10), Ok(10));
    assert_eq!(c.buy(ALICE, 99, 50, 10), Err(Error::NotOnSale));
    assert_eq!(c.buy(ALICE, 201, 50, 10), Err(Error::NotOnSale));
    assert_eq!(c.total_supply(), 1020);
    assert_eq!(c.balance_of(ALICE), 20);
}

#[test]
fn buy_accepts_exact_payment() {
    let mut c = sale_ready();
    assert_eq!(c.buy(BOB, 150, 50, 10), Ok(10));
    assert_eq!(c.transfers, vec![NativeTransfer { to: DEPLOYER, value: 50 }]);
}

#[test]
fn buy_rejects_short_payment() {
    let mut c = sale_ready();
    assert_eq!(c.buy(ALICE, 150, 49, 10), Err(Error::InsufficientFunds));
    assert_eq!(c.total_supply(), 1000);
    assert_eq!(c.balance_of(ALICE), 0);
    assert!(c.transfers.is_empty());
}

#[test]
fn buy_rejects_when_sale_disabled_or_unconfigured() {
    let mut disabled = fresh(1000, true, false, false, false);
    assert_eq!(disabled.set_sale_options(DEPLOYER, 5, 2000, 100, 200), Ok(()));
    assert_eq!(disabled.buy(ALICE, 150, 60, 10), Err(Error::FeatureNotEnabled));

    let mut unconfigured = fresh(1000, true, false, false, true);
    assert_eq!(unconfigured.buy(ALICE, 150, 60, 10), Err(Error::FeatureNotEnabled));
    assert_eq!(unconfigured.total_supply(), 1000);
}

#[test]
fn buy_rejects_past_the_supply_cap() {
    let mut c = sale_ready();
    // 1000 + 1001 > 2000.
    assert_eq!(c.buy(ALICE, 150, 6000, 1001), Err(Error::InsufficientSupply));
    assert_eq!(c.total_supply(), 1000);
    assert!(c.transfers.is_empty());
    // Exactly reaching the cap is allowed.
    assert_eq!(c.buy(ALICE, 150, 5000, 1000), Ok(1000));
    assert_eq!(c.total_supply(), 2000);
    assert_eq!(c.buy(ALICE, 150, 5, 1), Err(Error::InsufficientSupply));
}

#[test]
fn buy_of_zero_units_succeeds_and_forwards_the_payment() {
    let mut c = sale_ready();
    assert_eq!(c.buy(ALICE, 150, 3, 0), Ok(0));
    assert_eq!(c.total_supply(), 1000);
    assert_eq!(c.transfers, vec![NativeTransfer { to: DEPLOYER, value: 3 }]);
}

#[test]
fn buy_treats_an_overflowing_cost_as_insufficient_funds() {
    let mut c = fresh(0, true, false, false, true);
    assert_eq!(c.set_sale_options(DEPLOYER, u128::MAX, u128::MAX, 0, 10), Ok(()));
    // The mathematical cost MAX * 2 exceeds any possible payment.
    assert_eq!(c.buy(ALICE, 5, u128::MAX, 2), Err(Error::InsufficientFunds));
}

#[test]
fn buy_treats_an_overflowing_supply_as_insufficient_supply() {
    let mut c = fresh(u128::MAX, true, false, false, true);
    assert_eq!(c.set_sale_options(DEPLOYER, 0, u128::MAX, 0, 10), Ok(()));
    // MAX + 1 exceeds the cap no matter what the cap is.
    assert_eq!(c.buy(ALICE, 5, 0, 1), Err(Error::InsufficientSupply));
    assert_eq!(c.total_supply(), u128::MAX);
}

#[test]
fn change_state_toggles_and_toggles_back() {
    let mut c = fresh(0, true, false, false, false);
    assert!(!c.paused);
    assert_eq!(c.change_state(DEPLOYER), Ok(()));
    assert!(c.paused);
    assert_eq!(c.change_state(DEPLOYER), Ok(()));
    assert!(!c.paused);
}

#[test]
fn change_state_rejects_non_owner_and_disabled_feature() {
    let mut c = fresh(0, true, false, false, false);
    assert_eq!(c.change_state(ALICE), Err(Error::NotOwner));
    assert!(!c.paused);

    let mut no_pause = fresh(0, false, true, false, false);
    assert_eq!(no_pause.change_state(DEPLOYER), Err(Error::FeatureNotEnabled));
    assert!(!no_pause.paused);
}

#[test]
fn sale_scenario_buy_inside_then_outside_the_window() {
    // Construction with the sale and pause features: the deployer is the
    // owner and configures the sale.
    let mut c = fresh(1000, true, false, false, true);
    assert_eq!(c.set_sale_options(DEPLOYER, 5, 2000, 100, 200), Ok(()));
    assert_eq!(c.buy(ALICE, 150, 60, 10), Ok(10));
    assert_eq!(c.balance_of(ALICE), 10);
    assert_eq!(c.transfers, vec![NativeTransfer { to: DEPLOYER, value: 60 }]);
    assert_eq!(c.total_supply(), 1010);
    assert_eq!(c.buy(ALICE, 250, 60, 10), Err(Error::NotOnSale));
    assert_eq!(c.total_supply(), 1010);
}
