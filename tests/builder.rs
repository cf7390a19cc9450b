use multipool::actions::ActionSettings;
use multipool::core_math::{MpAsset, MpContext, MpError};
use multipool::num::Num;

fn context() -> MpContext {
    MpContext {
        total_current_usd_amount: Num::from("1000"),
        total_asset_percents: Num::from("100"),
        curve_coef: Num::from("0.0003"),
        deviation_percent_limit: Num::from("0.1"),
        operation_base_fee: Num::from("0.0001"),
        user_cashback_balance: Num::from("0"),
    }
}

fn asset(quantity: &str) -> MpAsset {
    MpAsset {
        quantity: Num::from(quantity),
        price: Num::from("10"),
        collected_fees: Num::from("0"),
        collected_cashbacks: Num::from("0"),
        percent: Num::from("50"),
    }
}

fn fetched(settings: ActionSettings) -> ActionSettings {
    let mut s = settings;
    s.context = Some(context());
    s.total_supply = Some(Num::from("100"));
    s.asset_in = Some(asset("50"));
    s.asset_out = Some(asset("50"));
    s
}

#[test]
fn mint() {
    let settings = fetched(
        ActionSettings::new()
            .amount_out(Num::from("10"))
            .slippage_percent(Num::from("10"))
            .pool(String::from("0x123"))
            .asset_in(String::from("0x345"))
            .receiver(String::from("0xME"))
            .blocks_to_live(Num::from("10")),
    );
    let settings = settings.mint(Num::from("100")).unwrap();
    let params = settings.mint_params.clone().unwrap();
    println!("{:?}", params);
    assert_eq!(params.pool_address, "0x123");
    assert_eq!(params.asset_in_address, "0x345");
    assert_eq!(params.receiver_address, "0xME");
    assert_eq!(params.shares, Num::from("10"));
    assert_eq!(params.deadline, Num::from("110"));
}

#[test]
fn builder_mint_amount_in_matches_engine() {
    let settings = fetched(
        ActionSettings::new()
            .amount_in(Num::from("5.0005"))
            .pool(String::from("pool"))
            .asset_in(String::from("a"))
            .receiver(String::from("me"))
            .until_block(Num::from("7")),
    );
    let mut ctx = context();
    let mut a = asset("50");
    let out = ctx.mint(&mut a, Num::from("5.0005")).unwrap();
    let shares = out
        .mul(a.price)
        .mul(Num::from("100"))
        .div(ctx.total_current_usd_amount);
    let params = settings.mint(Num::from("100")).unwrap().mint_params.unwrap();
    assert_eq!(params.shares, shares);
    assert_eq!(params.amount_in_max, Num::from("5.0005"));
    assert_eq!(params.deadline, Num::from("7"));
}

#[test]
fn builder_burn_amount_out_and_default_deadline() {
    let settings = fetched(
        ActionSettings::new()
            .amount_out(Num::from("5"))
            .pool(String::from("pool"))
            .asset_out(String::from("b"))
            .receiver(String::from("me")),
    );
    let params = settings.burn(Num::from("100")).unwrap().burn_params.unwrap();
    assert_eq!(params.amount_out_min, Num::from("5"));
    assert_eq!(params.deadline, Num::zero());
    assert_eq!(params.asset_out_address, "b");
    assert!(!params.shares.is_zero());
}

#[test]
fn builder_burn_with_slippage_lowers_minimum() {
    let settings = fetched(
        ActionSettings::new()
            .amount_in(Num::from("1"))
            .slippage_percent(Num::from("0.1"))
            .pool(String::from("pool"))
            .asset_out(String::from("b"))
            .receiver(String::from("me")),
    );
    let mut ctx = context();
    let mut a = asset("50");
    let burnt = Num::from("1")
        .mul(ctx.total_current_usd_amount)
        .div(a.price)
        .div(Num::from("100"));
    let out = ctx.burn(&mut a, burnt).unwrap();
    let params = settings.burn(Num::from("0")).unwrap().burn_params.unwrap();
    assert_eq!(params.amount_out_min, out.sub(out.mul(Num::from("0.1"))));
    assert_eq!(params.shares, Num::from("1"));
}

#[test]
fn builder_swap_both_directions() {
    let forward = fetched(
        ActionSettings::new()
            .amount_in(Num::from("1"))
            .pool(String::from("pool"))
            .asset_in(String::from("a"))
            .asset_out(String::from("b"))
            .receiver(String::from("me")),
    );
    let params = forward.swap(Num::from("0")).unwrap().swap_params.unwrap();
    assert_eq!(params.amount_in_max, Num::from("1"));
    assert!(!params.amount_out_min.is_zero());
    assert!(params.amount_out_min.lt(&Num::from("1")));

    let reversed = fetched(
        ActionSettings::new()
            .amount_out(Num::from("1"))
            .pool(String::from("pool"))
            .asset_in(String::from("a"))
            .asset_out(String::from("b"))
            .receiver(String::from("me")),
    );
    let params = reversed.swap(Num::from("0")).unwrap().swap_params.unwrap();
    assert_eq!(params.amount_out_min, Num::from("1"));
    // without a slippage the bound on what goes in is the requested output
    assert_eq!(params.amount_in_max, Num::from("1"));
}

#[test]
fn builder_reports_pricing_errors() {
    let mut settings = fetched(
        ActionSettings::new()
            .amount_in(Num::from("5000"))
            .pool(String::from("pool"))
            .asset_in(String::from("a"))
            .receiver(String::from("me")),
    );
    settings.asset_in = Some(asset("80"));
    assert_eq!(settings.mint(Num::from("0")).err(), Some(MpError::DeviationBiggerThanLimit));
}

#[test]
fn builder_slippage_above_one_floors_minimum_at_zero() {
    let settings = fetched(
        ActionSettings::new()
            .amount_in(Num::from("1"))
            .slippage_percent(Num::from("2"))
            .pool(String::from("pool"))
            .asset_out(String::from("b"))
            .receiver(String::from("me")),
    );
    let params = settings.burn(Num::from("0")).unwrap().burn_params.unwrap();
    assert_eq!(params.amount_out_min, Num::zero());
}
