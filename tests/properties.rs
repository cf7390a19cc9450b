use multipool::core_math::{
    calculate_deviation_burn, calculate_deviation_mint, get_suppliable_burn_quantity,
    get_utilisable_mint_quantity, MpAsset, MpContext, MpError,
};
use multipool::num::Num;
use multipool::snum::SNum;
use multipool::uint256::{mul_div, mul_div256, U256};
use multipool::uint512::{mul_div512, U512};

fn context(usd: &str, cashback: &str) -> MpContext {
    MpContext {
        total_current_usd_amount: Num::from(usd),
        total_asset_percents: Num::from("100"),
        curve_coef: Num::from("0.0003"),
        deviation_percent_limit: Num::from("0.1"),
        operation_base_fee: Num::from("0.0001"),
        user_cashback_balance: Num::from(cashback),
    }
}

fn asset(quantity: &str, cashbacks: &str, percent: &str) -> MpAsset {
    MpAsset {
        quantity: Num::from(quantity),
        price: Num::from("10"),
        collected_fees: Num::from("0"),
        collected_cashbacks: Num::from(cashbacks),
        percent: Num::from(percent),
    }
}

fn raw(v: u128) -> Num {
    Num::from_raw(U256::from_u128(v))
}

fn diff(a: Num, b: Num) -> Num {
    if a.lt(&b) {
        b.sub(a)
    } else {
        a.sub(b)
    }
}

#[test]
fn decimal_text_round_trips() {
    for s in ["0", "1", "3.14159", "0.00001", "1000", "949.995", "0.000000000000000000000001"] {
        assert_eq!(Num::from(s).to_string(), s);
    }
}

#[test]
fn parse_rejects_malformed_text() {
    assert!(Num::parse("1.2.3").is_none());
    assert!(Num::parse("abc").is_none());
    assert!(Num::parse("-1").is_none());
    assert_eq!(Num::parse("2.5"), Some(Num::from("2.5")));
    assert_eq!(Num::parse("0.0000000000000000000000001"), Some(Num::zero()));
}

#[test]
fn mul_then_div_gives_back() {
    let a = Num::from("3.25");
    let b = Num::from("8");
    assert_eq!(a.mul(b).div(b), a);
    assert_eq!(Num::from("6").div(Num::from("0")), Num::zero());
}

#[test]
fn sqrt_of_square() {
    let x = Num::from("12.5");
    assert_eq!(x.mul(x).sqrt(), x);
    assert_eq!(Num::from("2").sqrt(), raw(1414213562373095048801688));
}

#[test]
fn negation_cancels() {
    assert_eq!(SNum::from("-2.5").add(SNum::from("2.5")), SNum::zero());
    assert_eq!(SNum::zero().neg(), SNum::zero());
    assert_eq!(SNum::from("-2.5").to_string(), "-2.5");
    assert_eq!(SNum::zero().neg().to_string(), "0");
    assert_eq!(SNum::parse("-0.5").unwrap().abs(), Num::from("0.5"));
}

#[test]
fn signed_mul_div_truncate_toward_zero() {
    let a = SNum::from("-1");
    let b = SNum::from("3");
    let q = a.checked_div(b).unwrap();
    assert!(q.is_negative());
    assert_eq!(q.abs(), raw(333333333333333333333333));
    assert_eq!(a.checked_mul(b).unwrap(), SNum::from("-3"));
    assert_eq!(SNum::from("4").checked_sqrt().unwrap(), SNum::from("2"));
}

#[test]
fn signed_power_and_root() {
    assert_eq!(SNum::from("-1.5").pow(2).unwrap(), SNum::from("2.25"));
    assert_eq!(SNum::from("-2").pow(3).unwrap(), SNum::from("-8"));
    assert_eq!(SNum::from("7").pow(0).unwrap(), SNum::one());
    assert!(SNum::max().pow(2).is_none());
    assert_eq!(SNum::from("-0.25").sqrt(), SNum::from("0.5"));
}

#[test]
fn round_trip_mint_rev_then_mint() {
    let mut c1 = context("1000", "0");
    let mut a1 = asset("50", "0", "50");
    let wanted = Num::from("5");
    let supplied = c1.mint_rev(&mut a1, wanted).unwrap();
    let mut c2 = context("1000", "0");
    let mut a2 = asset("50", "0", "50");
    let got = c2.mint(&mut a2, supplied).unwrap();
    assert!(diff(got, wanted).le(&raw(4000)));
}

#[test]
fn round_trip_burn_rev_then_burn() {
    let mut c1 = context("1000", "0");
    let mut a1 = asset("50", "0", "50");
    let wanted = Num::from("5");
    let supplied = c1.burn_rev(&mut a1, wanted).unwrap();
    let mut c2 = context("1000", "0");
    let mut a2 = asset("50", "0", "50");
    let got = c2.burn(&mut a2, supplied).unwrap();
    assert!(diff(got, wanted).le(&raw(4000)));
}

#[test]
fn improving_mint_conserves_cashback() {
    let mut c = context("1000", "11");
    let mut a = asset("50", "10", "60");
    let before = a.collected_cashbacks.add(c.user_cashback_balance);
    c.mint(&mut a, Num::from("5.0005")).unwrap();
    assert_eq!(a.collected_cashbacks.add(c.user_cashback_balance), before);
    assert!(a.collected_cashbacks.lt(&Num::from("10")));
}

#[test]
fn improving_burn_conserves_cashback() {
    let mut c = context("1000", "1");
    let mut a = asset("56", "10", "50");
    let before = a.collected_cashbacks.add(c.user_cashback_balance);
    c.burn(&mut a, Num::from("5.0005")).unwrap();
    assert_eq!(a.collected_cashbacks.add(c.user_cashback_balance), before);
}

#[test]
fn fees_never_decrease() {
    let mut c = context("1000", "0");
    let mut a = asset("50", "0", "50");
    let mut last = a.collected_fees;
    c.mint(&mut a, Num::from("1")).unwrap();
    assert!(last.le(&a.collected_fees));
    last = a.collected_fees;
    c.burn(&mut a, Num::from("1")).unwrap();
    assert!(last.le(&a.collected_fees));
    last = a.collected_fees;
    c.mint_rev(&mut a, Num::from("1")).unwrap();
    assert!(last.le(&a.collected_fees));
    last = a.collected_fees;
    c.burn_rev(&mut a, Num::from("1")).unwrap();
    assert!(last.lt(&a.collected_fees));
}

#[test]
fn empty_pool_mint_is_a_deposit() {
    let mut c = context("0", "0");
    let mut a = asset("0", "0", "50");
    assert_eq!(c.mint(&mut a, Num::from("3")).unwrap(), Num::from("3"));
    assert_eq!(c.total_current_usd_amount, Num::from("30"));
    assert_eq!(a.collected_fees, Num::zero());
}

#[test]
fn errors_leave_state_unchanged() {
    let mut c = context("1000", "1");
    let mut a = asset("20", "10", "50");
    let (c0, a0) = (c, a);
    assert_eq!(c.burn(&mut a, Num::from("5000")), Err(MpError::InsufficientBurnQuantity));
    assert_eq!(c.burn(&mut a, Num::from("10")), Err(MpError::DeviationBiggerThanLimit));
    assert_eq!((c, a), (c0, a0));
}

#[test]
fn overflow_is_reported() {
    let mut c = context("1000", "0");
    let mut a = asset("50", "0", "50");
    a.price = Num::max();
    assert_eq!(c.mint(&mut a, Num::from("1")), Err(MpError::Overflow));
    let mut c = context("0", "0");
    let mut a = asset("0", "0", "50");
    a.price = Num::max();
    assert_eq!(c.mint_rev(&mut a, Num::from("2")), Err(MpError::Overflow));
}

#[test]
fn deviations_and_solvers() {
    let c = context("1000", "0");
    let a = asset("50", "0", "50");
    assert_eq!(calculate_deviation_mint(Num::zero(), &a, &c), Some(Num::zero()));
    assert_eq!(calculate_deviation_burn(Num::zero(), &a, &c), Some(Num::zero()));
    let d = calculate_deviation_mint(Num::from("50"), &a, &c).unwrap();
    assert_eq!(d, Num::from("0.5").sub(Num::from("500").div(Num::from("1000"))).add(d));
    let u = get_utilisable_mint_quantity(SNum::from("5.0051875"), &a.sign(), &c.sign()).unwrap();
    assert_eq!(u.abs(), Num::from("5"));
    let s = get_suppliable_burn_quantity(SNum::from("5"), &a.sign(), &c.sign()).unwrap();
    assert_eq!(s.abs(), Num::from("5.005866126138531618").sub(raw(3934)));
}

#[test]
fn wide_integer_operations() {
    let a = U256::from_u128(u128::MAX);
    let sq = a.checked_mul(a).unwrap();
    assert_eq!(sq.to_dec_string(), "115792089237316195423570985008687907852589419931798687112530834793049593217025");
    assert_eq!(multipool::uint512::sqrt_of_product(a, a), a);
    assert_eq!(sq.checked_mul(U256::from_u128(2)), None);
    assert_eq!(U256::from_dec_str("12345"), Some(U256::from_u128(12345)));
    assert_eq!(U256::from_dec_str("12a"), None);
    assert_eq!(U256::from_u128(7).checked_sub(U256::from_u128(9)), None);
    assert_eq!(U256::from_u128(7).checked_rem(U256::from_u128(4)), Some(U256::from_u128(3)));
    assert_eq!(U256::from_u128(7).checked_div(U256::zero()), None);
    assert!(U256::from_u128(3).lt(&U256::from_u128(4)));
    assert_eq!(U256::from_u128(10).pow(U256::from_u128(3)), U256::from_u128(1000));
    assert_eq!(mul_div(U256::from_u128(6), U256::from_u128(7), U256::from_u128(4)), Some(10));
    assert_eq!(mul_div(U256::from_u128(6), U256::from_u128(7), U256::zero()), Some(0));
    assert_eq!(mul_div256(sq, U256::from_u128(2), U256::from_u128(2)), Some(sq));
    let w = U512::from_u256(sq);
    assert_eq!(mul_div512(w, w, w), Some(w));
}

#[test]
fn snapshots_from_onchain_tuples() {
    let n = |v: u128| U256::from_u128(v);
    let c = MpContext::from((n(1), n(2), n(3), n(4), n(5), n(6)));
    assert_eq!(c.curve_coef, raw(3));
    assert_eq!(c.user_cashback_balance, raw(6));
    let a = MpAsset::from((n(7), n(8), n(9), n(10), n(11)));
    assert_eq!(a.quantity, raw(7));
    assert_eq!(a.percent, raw(11));
}

#[test]
fn rounding_scaling_and_squares() {
    assert_eq!(Num::from("7.25").round(Num::from("0.5")), Num::from("7"));
    assert_eq!(SNum::from("-7.25").round(Num::from("2")), SNum::from("-6"));
    assert_eq!(Num::from("1.5").pow2(), Num::from("2.25"));
    assert_eq!(Num::from("1.25").scaled(2), U256::from_u128(125));
    assert_eq!(Num::with_decimals(U256::from_u128(5_000_000), 30), raw(5));
    assert_eq!(Num::with_decimals(U256::from_u128(5), 30), Num::zero());
    assert_eq!(Num::max().checked_add(raw(1)), None);
    assert_eq!(Num::zero().checked_sub(raw(1)), None);
    assert_eq!(Num::max().checked_mul(Num::from("2")), None);
}

#[test]
fn wide_products_are_taken_at_512_bits() {
    let half = U256::from_dec_str(
        "57896044618658097711785492504343953926634992332820282019728792003956564819968",
    )
    .unwrap();
    let two = U256::from_u128(2);
    assert_eq!(mul_div256(half, two, two), Some(half));
    assert_eq!(mul_div256(half, U256::from_u128(4), two), None);
    // mul_div takes its product at 256 bits
    assert_eq!(mul_div(half, two, half), None);
    let p128 = U256::from_dec_str("340282366920938463463374607431768211456").unwrap();
    let p200 = U256::from_dec_str("1606938044258990275541962092341162602522202993782792835301376").unwrap();
    assert_eq!(mul_div(p128, p128, p200), None);
    assert_eq!(mul_div(half, U256::from_u128(1), half), Some(1));
    let big = Num::max().div(Num::from("1000"));
    assert_eq!(big.mul(Num::from("1000")).div(Num::from("1000")), big);
    assert_eq!(Num::max().checked_div(Num::from("2")), Some(Num::max().mul(Num::from("0.5"))));
}

#[test]
fn zero_sums_are_non_negative() {
    let z = SNum::zero().neg().add(SNum::zero().neg());
    assert!(z.is_zero() && !z.is_negative());
    let w = SNum::from("-3.5").add(SNum::from("3.5"));
    assert!(w.is_zero() && !w.is_negative());
    let d = SNum::from("-3.5").sub(SNum::from("-3.5"));
    assert!(d.is_zero() && !d.is_negative());
}

#[test]
fn square_roots_of_large_values() {
    let big = Num::from("1000000000000000000000000000000000000");
    assert_eq!(big.sqrt(), Num::from("1000000000000000000"));
    let m = Num::max().sqrt();
    assert!(m.mul(m).le(&Num::max()));
    assert_eq!(SNum::from("-1000000000000000000000000000000000000").sqrt(), SNum::from("1000000000000000000"));
}

#[test]
fn sums_and_wide_digit_shifts() {
    assert_eq!(Num::sum(&vec![]), Some(Num::zero()));
    assert_eq!(Num::sum(&vec![Num::from("1.5"), Num::from("2.25")]), Some(Num::from("3.75")));
    assert_eq!(Num::sum(&vec![Num::max(), raw(1)]), None);
    let p77 = multipool::utils::pow10(77);
    assert_eq!(multipool::strings::cast_float_to_integer("0.1", 78), Some(p77));
    assert_eq!(multipool::strings::cast_float_to_integer("1", 78), None);
    assert_eq!(multipool::strings::cast_float_to_integer("1", 200), None);
}
