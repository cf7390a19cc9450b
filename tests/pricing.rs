use multipool::core_math::{MpAsset, MpContext, MpError};
use multipool::num::Num;
use multipool::uint256::U256;

#[test]
fn mint_with_zero_balance_reversed() {
    let mut context = MpContext {
        total_current_usd_amount: Num::from("0"),
        total_asset_percents: Num::from("100"),
        curve_coef: Num::from("0.0003"),
        deviation_percent_limit: Num::from("0.1"),
        operation_base_fee: Num::from("0.0001"),
        user_cashback_balance: Num::from("0"),
    };
    let mut asset = MpAsset {
        quantity: Num::from("0"),
        price: Num::from("10"),
        collected_fees: Num::from("0"),
        collected_cashbacks: Num::from("0"),
        percent: Num::from("50"),
    };

    let utilisable_quantity = Num::from("10000000");

    let supplied_quantity = context.mint_rev(&mut asset, utilisable_quantity).unwrap();

    let result_context = MpContext {
        total_current_usd_amount: Num::from("100000000"),
        total_asset_percents: Num::from("100"),
        curve_coef: Num::from("0.0003"),
        deviation_percent_limit: Num::from("0.1"),
        operation_base_fee: Num::from("0.0001"),
        user_cashback_balance: Num::from("0"),
    };
    let result_asset = MpAsset {
        quantity: Num::from("10000000"),
        price: Num::from("10"),
        collected_fees: Num::from("0"),
        collected_cashbacks: Num::from("0"),
        percent: Num::from("50"),
    };
    let result_supplied_quantity = Num::from("10000000");
    assert_eq!(asset, result_asset);
    assert_eq!(context, result_context);
    assert_eq!(supplied_quantity, result_supplied_quantity);
}

#[test]
fn mint_with_zero_balance() {
    let mut context = MpContext {
        total_current_usd_amount: Num::from("0"),
        total_asset_percents: Num::from("100"),
        curve_coef: Num::from("0.0003"),
        deviation_percent_limit: Num::from("0.1"),
        operation_base_fee: Num::from("0.0001"),
        user_cashback_balance: Num::from("0"),
    };
    let mut asset = MpAsset {
        quantity: Num::from("0"),
        price: Num::from("10"),
        collected_fees: Num::from("0"),
        collected_cashbacks: Num::from("0"),
        percent: Num::from("50"),
    };

    let quantity_in = Num::from("10000000");

    let quantity_out = context.mint(&mut asset, quantity_in).unwrap();

    let result_context = MpContext {
        total_current_usd_amount: Num::from("100000000"),
        total_asset_percents: Num::from("100"),
        curve_coef: Num::from("0.0003"),
        deviation_percent_limit: Num::from("0.1"),
        operation_base_fee: Num::from("0.0001"),
        user_cashback_balance: Num::from("0"),
    };
    let result_asset = MpAsset {
        quantity: Num::from("10000000"),
        price: Num::from("10"),
        collected_fees: Num::from("0"),
        collected_cashbacks: Num::from("0"),
        percent: Num::from("50"),
    };
    let result_quantity_out = Num::from("10000000");
    assert_eq!(asset, result_asset);
    assert_eq!(context, result_context);
    assert_eq!(quantity_out, result_quantity_out);
}

#[test]
fn mint_with_deviation_fee() {
    let mut context = MpContext {
        total_current_usd_amount: Num::from("1000"),
        total_asset_percents: Num::from("100"),
        curve_coef: Num::from("0.0003"),
        deviation_percent_limit: Num::from("0.1"),
        operation_base_fee: Num::from("0.0001"),
        user_cashback_balance: Num::from("0"),
    };
    let mut asset = MpAsset {
        quantity: Num::from("50"),
        price: Num::from("10"),
        collected_fees: Num::from("0"),
        collected_cashbacks: Num::from("0"),
        percent: Num::from("50"),
    };

    let quantity_in = Num::from("5.0051875");

    let quantity_out = context.mint(&mut asset, quantity_in).unwrap();

    let result_context = MpContext {
        total_current_usd_amount: Num::from("1050"),
        total_asset_percents: Num::from("100"),
        curve_coef: Num::from("0.0003"),
        deviation_percent_limit: Num::from("0.1"),
        operation_base_fee: Num::from("0.0001"),
        user_cashback_balance: Num::from("0"),
    };
    let result_asset = MpAsset {
        quantity: Num::from("55"),
        price: Num::from("10"),
        collected_fees: Num::from("0.0005"),
        collected_cashbacks: Num::from("0.0051875").sub(Num::from("0.0005")),
        percent: Num::from("50"),
    };
    let result_quantity_out = Num::from("5");
    assert_eq!(asset, result_asset);
    assert_eq!(context, result_context);
    assert_eq!(quantity_out, result_quantity_out);
}

#[test]
fn mint_with_deviation_fee_reversed() {
    let mut context = MpContext {
        total_current_usd_amount: Num::from("1000"),
        total_asset_percents: Num::from("100"),
        curve_coef: Num::from("0.0003"),
        deviation_percent_limit: Num::from("0.1"),
        operation_base_fee: Num::from("0.0001"),
        user_cashback_balance: Num::from("0"),
    };
    let mut asset = MpAsset {
        quantity: Num::from("50"),
        price: Num::from("10"),
        collected_fees: Num::from("0"),
        collected_cashbacks: Num::from("0"),
        percent: Num::from("50"),
    };

    let quantity_in = Num::from("5");

    let quantity_out = context.mint_rev(&mut asset, quantity_in).unwrap();

    let result_context = MpContext {
        total_current_usd_amount: Num::from("1050"),
        total_asset_percents: Num::from("100"),
        curve_coef: Num::from("0.0003"),
        deviation_percent_limit: Num::from("0.1"),
        operation_base_fee: Num::from("0.0001"),
        user_cashback_balance: Num::from("0"),
    };
    let result_asset = MpAsset {
        quantity: Num::from("55"),
        price: Num::from("10"),
        collected_fees: Num::from("0.0005"),
        collected_cashbacks: Num::from("0.0051875").sub(Num::from("0.0005")).sub(Num::from_raw(U256::from_u128(94))),
        percent: Num::from("50"),
    };
    let result_quantity_out = Num::from("5.0051875").sub(Num::from_raw(U256::from_u128(94)));
    assert_eq!(asset, result_asset);
    assert_eq!(context, result_context);
    assert_eq!(quantity_out, result_quantity_out);
}

#[test]
fn burn_with_deviation_fee_reversed() {
    let mut context = MpContext {
        total_current_usd_amount: Num::from("1000"),
        total_asset_percents: Num::from("100"),
        curve_coef: Num::from("0.0003"),
        deviation_percent_limit: Num::from("0.1"),
        operation_base_fee: Num::from("0.0001"),
        user_cashback_balance: Num::from("0"),
    };
    let mut asset = MpAsset {
        quantity: Num::from("50"),
        price: Num::from("10"),
        collected_fees: Num::from("0"),
        collected_cashbacks: Num::from("0"),
        percent: Num::from("50"),
    };

    let quantity_in = Num::from("5");

    let quantity_out = context.burn_rev(&mut asset, quantity_in).unwrap();

    // gives us an approximation of 1 wei
    let result_quantity_out = Num::from("5.005866126138531618").sub(Num::from_raw(U256::from_u128(3934)));

    let result_context = MpContext {
        total_current_usd_amount: Num::from("1000").sub(result_quantity_out.mul(Num::from("10"))),
        total_asset_percents: Num::from("100"),
        curve_coef: Num::from("0.0003"),
        deviation_percent_limit: Num::from("0.1"),
        operation_base_fee: Num::from("0.0001"),
        user_cashback_balance: Num::from("0"),
    };
    let result_asset = MpAsset {
        quantity: Num::from("50").sub(result_quantity_out),
        price: Num::from("10"),
        collected_fees: Num::from("0.0005"),
        collected_cashbacks: result_quantity_out.sub(Num::from("5.0005")),
        percent: Num::from("50"),
    };
    assert_eq!(quantity_out, result_quantity_out);
    assert_eq!(asset, result_asset);
    assert_eq!(context, result_context);
}

#[test]
fn burn_with_deviation_fee() {
    let mut context = MpContext {
        total_current_usd_amount: Num::from("1000"),
        total_asset_percents: Num::from("100"),
        curve_coef: Num::from("0.0003"),
        deviation_percent_limit: Num::from("0.1"),
        operation_base_fee: Num::from("0.0001"),
        user_cashback_balance: Num::from("0"),
    };
    let mut asset = MpAsset {
        quantity: Num::from("50"),
        price: Num::from("10"),
        collected_fees: Num::from("0"),
        collected_cashbacks: Num::from("0"),
        percent: Num::from("50"),
    };

    // using 24 decimal over contract's 18 decimal system gives us approx lower than 18 dec
    // so it's arithmetically correct
    let quantity_in = Num::from("5.005866126138531618").sub(Num::from_raw(U256::from_u128(4164)));

    let quantity_out = context.burn(&mut asset, quantity_in).unwrap();

    let result_quantity_out = Num::from("5");

    let result_context = MpContext {
        total_current_usd_amount: Num::from("1000").sub(quantity_in.mul(Num::from("10"))),
        total_asset_percents: Num::from("100"),
        curve_coef: Num::from("0.0003"),
        deviation_percent_limit: Num::from("0.1"),
        operation_base_fee: Num::from("0.0001"),
        user_cashback_balance: Num::from("0"),
    };
    let result_asset = MpAsset {
        quantity: Num::from("50").sub(quantity_in),
        price: Num::from("10"),
        collected_fees: Num::from("0.0005"),
        collected_cashbacks: quantity_in.sub(Num::from("5.0005")),
        percent: Num::from("50"),
    };
    assert_eq!(quantity_out, result_quantity_out);
    assert_eq!(asset, result_asset);
    assert_eq!(context, result_context);
}

#[test]
fn mint_with_no_deviation_fee() {
    let mut context = MpContext {
        total_current_usd_amount: Num::from("1000"),
        total_asset_percents: Num::from("100"),
        curve_coef: Num::from("0.0003"),
        deviation_percent_limit: Num::from("0.1"),
        operation_base_fee: Num::from("0.0001"),
        user_cashback_balance: Num::from("0"),
    };
    let mut asset = MpAsset {
        quantity: Num::from("46"),
        price: Num::from("10"),
        collected_fees: Num::from("0"),
        collected_cashbacks: Num::from("0"),
        percent: Num::from("50"),
    };

    let quantity_in = Num::from("5.0005");

    let quantity_out = context.mint(&mut asset, quantity_in).unwrap();

    let result_quantity_out = Num::from("5");

    let result_context = MpContext {
        total_current_usd_amount: Num::from("1050"),
        total_asset_percents: Num::from("100"),
        curve_coef: Num::from("0.0003"),
        deviation_percent_limit: Num::from("0.1"),
        operation_base_fee: Num::from("0.0001"),
        user_cashback_balance: Num::from("0"),
    };
    let result_asset = MpAsset {
        quantity: Num::from("51"),
        price: Num::from("10"),
        collected_fees: Num::from("0.0005"),
        collected_cashbacks: Num::from("0"),
        percent: Num::from("50"),
    };
    assert_eq!(quantity_out, result_quantity_out);
    assert_eq!(asset, result_asset);
    assert_eq!(context, result_context);
}

#[test]
fn mint_with_no_deviation_fee_reversed() {
    let mut context = MpContext {
        total_current_usd_amount: Num::from("1000"),
        total_asset_percents: Num::from("100"),
        curve_coef: Num::from("0.0003"),
        deviation_percent_limit: Num::from("0.1"),
        operation_base_fee: Num::from("0.0001"),
        user_cashback_balance: Num::from("0"),
    };
    let mut asset = MpAsset {
        quantity: Num::from("46"),
        price: Num::from("10"),
        collected_fees: Num::from("0"),
        collected_cashbacks: Num::from("0"),
        percent: Num::from("50"),
    };

    let quantity_in = Num::from("5");

    let quantity_out = context.mint_rev(&mut asset, quantity_in).unwrap();

    let result_quantity_out = Num::from("5.0005");

    let result_context = MpContext {
        total_current_usd_amount: Num::from("1050"),
        total_asset_percents: Num::from("100"),
        curve_coef: Num::from("0.0003"),
        deviation_percent_limit: Num::from("0.1"),
        operation_base_fee: Num::from("0.0001"),
        user_cashback_balance: Num::from("0"),
    };
    let result_asset = MpAsset {
        quantity: Num::from("51"),
        price: Num::from("10"),
        collected_fees: Num::from("0.0005"),
        collected_cashbacks: Num::from("0"),
        percent: Num::from("50"),
    };
    assert_eq!(quantity_out, result_quantity_out);
    assert_eq!(asset, result_asset);
    assert_eq!(context, result_context);
}

#[test]
fn burn_with_no_deviation_fee_reversed() {
    let mut context = MpContext {
        total_current_usd_amount: Num::from("1000"),
        total_asset_percents: Num::from("100"),
        curve_coef: Num::from("0.0003"),
        deviation_percent_limit: Num::from("0.1"),
        operation_base_fee: Num::from("0.0001"),
        user_cashback_balance: Num::from("0"),
    };
    let mut asset = MpAsset {
        quantity: Num::from("56"),
        price: Num::from("10"),
        collected_fees: Num::from("0"),
        collected_cashbacks: Num::from("0"),
        percent: Num::from("50"),
    };

    let quantity_in = Num::from("5");

    let quantity_out = context.burn_rev(&mut asset, quantity_in).unwrap();

    let result_quantity_out = Num::from("5.0005");

    let result_context = MpContext {
        total_current_usd_amount: Num::from("949.995"),
        total_asset_percents: Num::from("100"),
        curve_coef: Num::from("0.0003"),
        deviation_percent_limit: Num::from("0.1"),
        operation_base_fee: Num::from("0.0001"),
        user_cashback_balance: Num::from("0"),
    };
    let result_asset = MpAsset {
        quantity: Num::from("50.9995"),
        price: Num::from("10"),
        collected_fees: Num::from("0.0005"),
        collected_cashbacks: Num::from("0"),
        percent: Num::from("50"),
    };
    assert_eq!(quantity_out, result_quantity_out);
    assert_eq!(asset, result_asset);
    assert_eq!(context, result_context);
}

#[test]
fn burn_with_no_deviation_fee() {
    let mut context = MpContext {
        total_current_usd_amount: Num::from("1000"),
        total_asset_percents: Num::from("100"),
        curve_coef: Num::from("0.0003"),
        deviation_percent_limit: Num::from("0.1"),
        operation_base_fee: Num::from("0.0001"),
        user_cashback_balance: Num::from("0"),
    };
    let mut asset = MpAsset {
        quantity: Num::from("56"),
        price: Num::from("10"),
        collected_fees: Num::from("0"),
        collected_cashbacks: Num::from("0"),
        percent: Num::from("50"),
    };

    let quantity_in = Num::from("5.0005");

    let quantity_out = context.burn(&mut asset, quantity_in).unwrap();

    let result_quantity_out = Num::from("5");

    let result_context = MpContext {
        total_current_usd_amount: Num::from("949.995"),
        total_asset_percents: Num::from("100"),
        curve_coef: Num::from("0.0003"),
        deviation_percent_limit: Num::from("0.1"),
        operation_base_fee: Num::from("0.0001"),
        user_cashback_balance: Num::from("0"),
    };
    let result_asset = MpAsset {
        quantity: Num::from("50.9995"),
        price: Num::from("10"),
        collected_fees: Num::from("0.0005"),
        collected_cashbacks: Num::from("0"),
        percent: Num::from("50"),
    };
    assert_eq!(quantity_out, result_quantity_out);
    assert_eq!(asset, result_asset);
    assert_eq!(context, result_context);
}

#[test]
fn mint_with_no_deviation_fee_and_cashback() {
    let mut context = MpContext {
        total_current_usd_amount: Num::from("1000"),
        total_asset_percents: Num::from("100"),
        curve_coef: Num::from("0.0003"),
        deviation_percent_limit: Num::from("0.1"),
        operation_base_fee: Num::from("0.0001"),
        user_cashback_balance: Num::from("1"),
    };
    let mut asset = MpAsset {
        quantity: Num::from("46"),
        price: Num::from("10"),
        collected_fees: Num::from("0"),
        collected_cashbacks: Num::from("10"),
        percent: Num::from("50"),
    };

    let quantity_in = Num::from("5.0005");

    let quantity_out = context.mint(&mut asset, quantity_in).unwrap();

    let result_quantity_out = Num::from("5");

    let result_context = MpContext {
        total_current_usd_amount: Num::from("1050"),
        total_asset_percents: Num::from("100"),
        curve_coef: Num::from("0.0003"),
        deviation_percent_limit: Num::from("0.1"),
        operation_base_fee: Num::from("0.0001"),
        user_cashback_balance: Num::from("11").sub(Num::from("3.571428571428571428571500")),
    };
    let result_asset = MpAsset {
        quantity: Num::from("51"),
        price: Num::from("10"),
        collected_fees: Num::from("0.0005"),
        collected_cashbacks: Num::from("3.571428571428571428571500"),
        percent: Num::from("50"),
    };
    assert_eq!(quantity_out, result_quantity_out);
    assert_eq!(asset, result_asset);
    assert_eq!(context, result_context);
}

#[test]
fn mint_with_no_deviation_fee_and_cashback_reversed() {
    let mut context = MpContext {
        total_current_usd_amount: Num::from("1000"),
        total_asset_percents: Num::from("100"),
        curve_coef: Num::from("0.0003"),
        deviation_percent_limit: Num::from("0.1"),
        operation_base_fee: Num::from("0.0001"),
        user_cashback_balance: Num::from("1"),
    };
    let mut asset = MpAsset {
        quantity: Num::from("46"),
        price: Num::from("10"),
        collected_fees: Num::from("0"),
        collected_cashbacks: Num::from("10"),
        percent: Num::from("50"),
    };

    let quantity_in = Num::from("5");

    let quantity_out = context.mint_rev(&mut asset, quantity_in).unwrap();

    let result_quantity_out = Num::from("5.0005");

    let result_context = MpContext {
        total_current_usd_amount: Num::from("1050"),
        total_asset_percents: Num::from("100"),
        curve_coef: Num::from("0.0003"),
        deviation_percent_limit: Num::from("0.1"),
        operation_base_fee: Num::from("0.0001"),
        user_cashback_balance: Num::from("11").sub(Num::from("3.571428571428571428571500")),
    };
    let result_asset = MpAsset {
        quantity: Num::from("51"),
        price: Num::from("10"),
        collected_fees: Num::from("0.0005"),
        collected_cashbacks: Num::from("3.571428571428571428571500"),
        percent: Num::from("50"),
    };
    assert_eq!(quantity_out, result_quantity_out);
    assert_eq!(asset, result_asset);
    assert_eq!(context, result_context);
}

#[test]
fn burn_with_no_deviation_fee_and_cashback_reversed() {
    let mut context = MpContext {
        total_current_usd_amount: Num::from("1000"),
        total_asset_percents: Num::from("100"),
        curve_coef: Num::from("0.0003"),
        deviation_percent_limit: Num::from("0.1"),
        operation_base_fee: Num::from("0.0001"),
        user_cashback_balance: Num::from("1"),
    };
    let mut asset = MpAsset {
        quantity: Num::from("56"),
        price: Num::from("10"),
        collected_fees: Num::from("0"),
        collected_cashbacks: Num::from("10"),
        percent: Num::from("50"),
    };

    let quantity_in = Num::from("5");

    let quantity_out = context.burn_rev(&mut asset, quantity_in).unwrap();

    let result_quantity_out = Num::from("5.0005");

    let result_context = MpContext {
        total_current_usd_amount: Num::from("949.995"),
        total_asset_percents: Num::from("100"),
        curve_coef: Num::from("0.0003"),
        deviation_percent_limit: Num::from("0.1"),
        operation_base_fee: Num::from("0.0001"),
        user_cashback_balance: Num::from("11").sub(Num::from("6.139944596199629120855000")),
    };
    let result_asset = MpAsset {
        quantity: Num::from("50.9995"),
        price: Num::from("10"),
        collected_fees: Num::from("0.0005"),
        collected_cashbacks: Num::from("6.139944596199629120855000"),
        percent: Num::from("50"),
    };
    assert_eq!(quantity_out, result_quantity_out);
    assert_eq!(asset, result_asset);
    assert_eq!(context, result_context);
}

#[test]
fn burn_with_no_deviation_fee_and_cashback() {
    let mut context = MpContext {
        total_current_usd_amount: Num::from("1000"),
        total_asset_percents: Num::from("100"),
        curve_coef: Num::from("0.0003"),
        deviation_percent_limit: Num::from("0.1"),
        operation_base_fee: Num::from("0.0001"),
        user_cashback_balance: Num::from("1"),
    };
    let mut asset = MpAsset {
        quantity: Num::from("56"),
        price: Num::from("10"),
        collected_fees: Num::from("0"),
        collected_cashbacks: Num::from("10"),
        percent: Num::from("50"),
    };

    let quantity_in = Num::from("5.0005");

    let quantity_out = context.burn(&mut asset, quantity_in).unwrap();

    let result_quantity_out = Num::from("5");

    let result_context = MpContext {
        total_current_usd_amount: Num::from("949.995"),
        total_asset_percents: Num::from("100"),
        curve_coef: Num::from("0.0003"),
        deviation_percent_limit: Num::from("0.1"),
        operation_base_fee: Num::from("0.0001"),
        user_cashback_balance: Num::from("11").sub(Num::from("6.139944596199629120855000")),
    };
    let result_asset = MpAsset {
        quantity: Num::from("50.9995"),
        price: Num::from("10"),
        collected_fees: Num::from("0.0005"),
        collected_cashbacks: Num::from("6.139944596199629120855000"),
        percent: Num::from("50"),
    };
    assert_eq!(quantity_out, result_quantity_out);
    assert_eq!(asset, result_asset);
    assert_eq!(context, result_context);
}

#[test]
fn mint_with_deviation_bigger_than_limit() {
    let mut context = MpContext {
        total_current_usd_amount: Num::from("1000"),
        total_asset_percents: Num::from("100"),
        curve_coef: Num::from("0.0003"),
        deviation_percent_limit: Num::from("0.1"),
        operation_base_fee: Num::from("0.0001"),
        user_cashback_balance: Num::from("1"),
    };
    let mut asset = MpAsset {
        quantity: Num::from("20"),
        price: Num::from("10"),
        collected_fees: Num::from("0"),
        collected_cashbacks: Num::from("10"),
        percent: Num::from("50"),
    };

    let quantity_in = Num::from("5.0005");

    let quantity_out = context.mint(&mut asset, quantity_in).unwrap();

    let result_quantity_out = Num::from("5");

    let result_context = MpContext {
        total_current_usd_amount: Num::from("1050"),
        total_asset_percents: Num::from("100"),
        curve_coef: Num::from("0.0003"),
        deviation_percent_limit: Num::from("0.1"),
        operation_base_fee: Num::from("0.0001"),
        user_cashback_balance: Num::from("11").sub(Num::from("8.730158730158730158730167")),
    };
    let result_asset = MpAsset {
        quantity: Num::from("25"),
        price: Num::from("10"),
        collected_fees: Num::from("0.0005"),
        collected_cashbacks: Num::from("8.730158730158730158730167"),
        percent: Num::from("50"),
    };
    assert_eq!(quantity_out, result_quantity_out);
    assert_eq!(asset, result_asset);
    assert_eq!(context, result_context);
}

#[test]
fn mint_with_deviation_bigger_than_limit_reversed() {
    let mut context = MpContext {
        total_current_usd_amount: Num::from("1000"),
        total_asset_percents: Num::from("100"),
        curve_coef: Num::from("0.0003"),
        deviation_percent_limit: Num::from("0.1"),
        operation_base_fee: Num::from("0.0001"),
        user_cashback_balance: Num::from("1"),
    };
    let mut asset = MpAsset {
        quantity: Num::from("20"),
        price: Num::from("10"),
        collected_fees: Num::from("0"),
        collected_cashbacks: Num::from("10"),
        percent: Num::from("50"),
    };

    let quantity_in = Num::from("5");

    let quantity_out = context.mint_rev(&mut asset, quantity_in).unwrap();

    let result_quantity_out = Num::from("5.0005");

    let result_context = MpContext {
        total_current_usd_amount: Num::from("1050"),
        total_asset_percents: Num::from("100"),
        curve_coef: Num::from("0.0003"),
        deviation_percent_limit: Num::from("0.1"),
        operation_base_fee: Num::from("0.0001"),
        user_cashback_balance: Num::from("11").sub(Num::from("8.730158730158730158730167")),
    };
    let result_asset = MpAsset {
        quantity: Num::from("25"),
        price: Num::from("10"),
        collected_fees: Num::from("0.0005"),
        collected_cashbacks: Num::from("8.730158730158730158730167"),
        percent: Num::from("50"),
    };
    assert_eq!(quantity_out, result_quantity_out);
    assert_eq!(asset, result_asset);
    assert_eq!(context, result_context);
}

#[test]
fn burn_with_deviation_bigger_than_limit_reversed() {
    let mut context = MpContext {
        total_current_usd_amount: Num::from("1000"),
        total_asset_percents: Num::from("100"),
        curve_coef: Num::from("0.0003"),
        deviation_percent_limit: Num::from("0.1"),
        operation_base_fee: Num::from("0.0001"),
        user_cashback_balance: Num::from("1"),
    };
    let mut asset = MpAsset {
        quantity: Num::from("80"),
        price: Num::from("10"),
        collected_fees: Num::from("0"),
        collected_cashbacks: Num::from("10"),
        percent: Num::from("50"),
    };

    let quantity_in = Num::from("5");

    let quantity_out = context.burn_rev(&mut asset, quantity_in).unwrap();

    let result_quantity_out = Num::from("5.0005");

    let result_context = MpContext {
        total_current_usd_amount: Num::from("1000").sub(Num::from("50.005")),
        total_asset_percents: Num::from("100"),
        curve_coef: Num::from("0.0003"),
        deviation_percent_limit: Num::from("0.1"),
        operation_base_fee: Num::from("0.0001"),
        user_cashback_balance: Num::from("11").sub(Num::from("9.649085872381784465532267")),
    };
    let result_asset = MpAsset {
        quantity: Num::from("80").sub(Num::from("5.0005")),
        price: Num::from("10"),
        collected_fees: Num::from("0.0005"),
        collected_cashbacks: Num::from("9.649085872381784465532267"),
        percent: Num::from("50"),
    };
    assert_eq!(quantity_out, result_quantity_out);
    assert_eq!(asset, result_asset);
    assert_eq!(context, result_context);
}

#[test]
fn burn_with_deviation_bigger_than_limit() {
    let mut context = MpContext {
        total_current_usd_amount: Num::from("1000"),
        total_asset_percents: Num::from("100"),
        curve_coef: Num::from("0.0003"),
        deviation_percent_limit: Num::from("0.1"),
        operation_base_fee: Num::from("0.0001"),
        user_cashback_balance: Num::from("1"),
    };
    let mut asset = MpAsset {
        quantity: Num::from("80"),
        price: Num::from("10"),
        collected_fees: Num::from("0"),
        collected_cashbacks: Num::from("10"),
        percent: Num::from("50"),
    };

    let quantity_in = Num::from("5.0005");

    let quantity_out = context.burn(&mut asset, quantity_in).unwrap();

    let result_quantity_out = Num::from("5");

    let result_context = MpContext {
        total_current_usd_amount: Num::from("1000").sub(Num::from("50.005")),
        total_asset_percents: Num::from("100"),
        curve_coef: Num::from("0.0003"),
        deviation_percent_limit: Num::from("0.1"),
        operation_base_fee: Num::from("0.0001"),
        user_cashback_balance: Num::from("11").sub(Num::from("9.649085872381784465532267")),
    };
    let result_asset = MpAsset {
        quantity: Num::from("80").sub(Num::from("5.0005")),
        price: Num::from("10"),
        collected_fees: Num::from("0.0005"),
        collected_cashbacks: Num::from("9.649085872381784465532267"),
        percent: Num::from("50"),
    };
    assert_eq!(quantity_out, result_quantity_out);
    assert_eq!(asset, result_asset);
    assert_eq!(context, result_context);
}

#[test]
fn mint_too_much() {
    let mut context = MpContext {
        total_current_usd_amount: Num::from("1000"),
        total_asset_percents: Num::from("100"),
        curve_coef: Num::from("0.0003"),
        deviation_percent_limit: Num::from("0.1"),
        operation_base_fee: Num::from("0.0001"),
        user_cashback_balance: Num::from("1"),
    };
    let mut asset = MpAsset {
        quantity: Num::from("50"),
        price: Num::from("10"),
        collected_fees: Num::from("0"),
        collected_cashbacks: Num::from("10"),
        percent: Num::from("50"),
    };

    let quantity_in = Num::from("5000.0005");

    let quantity_out = context.mint(&mut asset, quantity_in).unwrap();

    let result_quantity_out = Num::from("24.999528912081994491366015");

    let result_context = MpContext {
        total_current_usd_amount: Num::from("1000").add(result_quantity_out.mul(Num::from("10"))),
        total_asset_percents: Num::from("100"),
        curve_coef: Num::from("0.0003"),
        deviation_percent_limit: Num::from("0.1"),
        operation_base_fee: Num::from("0.0001"),
        user_cashback_balance: Num::from("1"),
    };
    let result_asset = MpAsset {
        quantity: Num::from("50").add(result_quantity_out),
        price: Num::from("10"),
        collected_fees: result_quantity_out.mul(Num::from("0.0001")),
        collected_cashbacks: Num::from("10")
            .add(quantity_in)
            .sub(result_quantity_out)
            .sub(result_quantity_out.mul(Num::from("0.0001"))),
        percent: Num::from("50"),
    };
    assert_eq!(quantity_out, result_quantity_out);
    assert_eq!(asset, result_asset);
    assert_eq!(context, result_context);
}

#[test]
fn mint_too_much_reversed() {
    let mut context = MpContext {
        total_current_usd_amount: Num::from("1000"),
        total_asset_percents: Num::from("100"),
        curve_coef: Num::from("0.0003"),
        deviation_percent_limit: Num::from("0.1"),
        operation_base_fee: Num::from("0.0001"),
        user_cashback_balance: Num::from("1"),
    };
    let mut asset = MpAsset {
        quantity: Num::from("50"),
        price: Num::from("10"),
        collected_fees: Num::from("0"),
        collected_cashbacks: Num::from("10"),
        percent: Num::from("50"),
    };

    let quantity_in = Num::from("24.999528912081994491366015");

    let quantity_out = context.mint_rev(&mut asset, quantity_in).unwrap();

    let result_quantity_out = Num::from("5000.000499999999998975370523");

    let result_context = MpContext {
        total_current_usd_amount: Num::from("1000").add(quantity_in.mul(Num::from("10"))),
        total_asset_percents: Num::from("100"),
        curve_coef: Num::from("0.0003"),
        deviation_percent_limit: Num::from("0.1"),
        operation_base_fee: Num::from("0.0001"),
        user_cashback_balance: Num::from("1"),
    };
    let result_asset = MpAsset {
        quantity: Num::from("50").add(quantity_in),
        price: Num::from("10"),
        collected_fees: quantity_in.mul(Num::from("0.0001")),
        collected_cashbacks: Num::from("10")
            .add(result_quantity_out)
            .sub(quantity_in)
            .sub(quantity_in.mul(Num::from("0.0001"))),
        percent: Num::from("50"),
    };
    assert_eq!(quantity_out, result_quantity_out);
    assert_eq!(asset, result_asset);
    assert_eq!(context, result_context);
}

#[test]
fn burn_too_much() {
    let mut context = MpContext {
        total_current_usd_amount: Num::from("1000"),
        total_asset_percents: Num::from("100"),
        curve_coef: Num::from("0.0003"),
        deviation_percent_limit: Num::from("0.1"),
        operation_base_fee: Num::from("0.0001"),
        user_cashback_balance: Num::from("1"),
    };
    let mut asset = MpAsset {
        quantity: Num::from("80"),
        price: Num::from("10"),
        collected_fees: Num::from("0"),
        collected_cashbacks: Num::from("10"),
        percent: Num::from("80"),
    };

    let quantity_in = Num::from("50");

    let quantity_out = context.burn(&mut asset, quantity_in);
    assert_eq!(Err(MpError::DeviationBiggerThanLimit), quantity_out)
}

#[test]
fn burn_too_much_reversed() {
    let mut context = MpContext {
        total_current_usd_amount: Num::from("1000"),
        total_asset_percents: Num::from("100"),
        curve_coef: Num::from("0.0003"),
        deviation_percent_limit: Num::from("0.1"),
        operation_base_fee: Num::from("0.0001"),
        user_cashback_balance: Num::from("1"),
    };
    let mut asset = MpAsset {
        quantity: Num::from("80"),
        price: Num::from("10"),
        collected_fees: Num::from("0"),
        collected_cashbacks: Num::from("10"),
        percent: Num::from("80"),
    };

    let quantity_in = Num::from("50");

    let quantity_out = context.burn_rev(&mut asset, quantity_in);
    assert_eq!(Err(MpError::NoCurveSolutions), quantity_out)
}

#[test]
fn mint_too_much_being_bigger_than_limit() {
    let mut context = MpContext {
        total_current_usd_amount: Num::from("1000"),
        total_asset_percents: Num::from("100"),
        curve_coef: Num::from("0.0003"),
        deviation_percent_limit: Num::from("0.1"),
        operation_base_fee: Num::from("0.0001"),
        user_cashback_balance: Num::from("1"),
    };
    let mut asset = MpAsset {
        quantity: Num::from("80"),
        price: Num::from("10"),
        collected_fees: Num::from("0"),
        collected_cashbacks: Num::from("10"),
        percent: Num::from("50"),
    };

    let quantity_in = Num::from("5000");

    let quantity_out = context.mint(&mut asset, quantity_in);
    assert_eq!(Err(MpError::DeviationBiggerThanLimit), quantity_out)
}

#[test]
fn mint_too_much_being_bigger_than_limit_reversed() {
    let mut context = MpContext {
        total_current_usd_amount: Num::from("1000"),
        total_asset_percents: Num::from("100"),
        curve_coef: Num::from("0.0003"),
        deviation_percent_limit: Num::from("0.1"),
        operation_base_fee: Num::from("0.0001"),
        user_cashback_balance: Num::from("1"),
    };
    let mut asset = MpAsset {
        quantity: Num::from("80"),
        price: Num::from("10"),
        collected_fees: Num::from("0"),
        collected_cashbacks: Num::from("10"),
        percent: Num::from("50"),
    };

    let quantity_in = Num::from("5000");

    let quantity_out = context.mint_rev(&mut asset, quantity_in);
    assert_eq!(Err(MpError::DeviationBiggerThanLimit), quantity_out)
}

#[test]
fn burn_too_much_being_bigger_than_limit_more_than_quantity() {
    let mut context = MpContext {
        total_current_usd_amount: Num::from("1000"),
        total_asset_percents: Num::from("100"),
        curve_coef: Num::from("0.0003"),
        deviation_percent_limit: Num::from("0.1"),
        operation_base_fee: Num::from("0.0001"),
        user_cashback_balance: Num::from("1"),
    };
    let mut asset = MpAsset {
        quantity: Num::from("20"),
        price: Num::from("10"),
        collected_fees: Num::from("0"),
        collected_cashbacks: Num::from("10"),
        percent: Num::from("50"),
    };

    let quantity_in = Num::from("5000");

    let quantity_out = context.burn(&mut asset, quantity_in);
    assert_eq!(Err(MpError::InsufficientBurnQuantity), quantity_out)
}

#[test]
fn burn_too_much_being_bigger_than_limit() {
    let mut context = MpContext {
        total_current_usd_amount: Num::from("1000"),
        total_asset_percents: Num::from("100"),
        curve_coef: Num::from("0.0003"),
        deviation_percent_limit: Num::from("0.1"),
        operation_base_fee: Num::from("0.0001"),
        user_cashback_balance: Num::from("1"),
    };
    let mut asset = MpAsset {
        quantity: Num::from("20"),
        price: Num::from("10"),
        collected_fees: Num::from("0"),
        collected_cashbacks: Num::from("10"),
        percent: Num::from("50"),
    };

    let quantity_in = Num::from("10");

    let quantity_out = context.burn(&mut asset, quantity_in);
    assert_eq!(Err(MpError::DeviationBiggerThanLimit), quantity_out)
}

#[test]
fn burn_too_much_being_bigger_than_limit_more_than_quantity_reversed() {
    let mut context = MpContext {
        total_current_usd_amount: Num::from("1000"),
        total_asset_percents: Num::from("100"),
        curve_coef: Num::from("0.0003"),
        deviation_percent_limit: Num::from("0.1"),
        operation_base_fee: Num::from("0.0001"),
        user_cashback_balance: Num::from("1"),
    };
    let mut asset = MpAsset {
        quantity: Num::from("20"),
        price: Num::from("10"),
        collected_fees: Num::from("0"),
        collected_cashbacks: Num::from("10"),
        percent: Num::from("50"),
    };

    let quantity_in = Num::from("5000");

    let quantity_out = context.burn_rev(&mut asset, quantity_in);
    assert_eq!(Err(MpError::InsufficientBurnQuantity), quantity_out)
}

#[test]
fn burn_too_much_being_bigger_than_limit_reversed() {
    let mut context = MpContext {
        total_current_usd_amount: Num::from("1000"),
        total_asset_percents: Num::from("100"),
        curve_coef: Num::from("0.0003"),
        deviation_percent_limit: Num::from("0.1"),
        operation_base_fee: Num::from("0.0001"),
        user_cashback_balance: Num::from("1"),
    };
    let mut asset = MpAsset {
        quantity: Num::from("20"),
        price: Num::from("10"),
        collected_fees: Num::from("0"),
        collected_cashbacks: Num::from("10"),
        percent: Num::from("50"),
    };

    let quantity_in = Num::from("10");

    let quantity_out = context.burn_rev(&mut asset, quantity_in);
    assert_eq!(Err(MpError::DeviationBiggerThanLimit), quantity_out)
}
