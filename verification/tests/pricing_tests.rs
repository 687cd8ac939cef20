//! Pricing-engine tests: integer square root reference values, curve
//! values for each shape, quote additivity and the buy/sell round trip.

use nft_escrow::utils::{U256, CurveType, CurveArgs};
use nft_escrow::utils::integer_sqrt;
use nft_escrow::curves::{pow10_u128, sum_price, token_price, quote_buy, quote_sell};
use nft_escrow::errors::EscrowError;

fn horizontal_args(a: u128) -> CurveArgs {
    CurveArgs { arg_a: Some(a), arg_b: None, arg_c: None, arg_d: None }
}

#[test]
fn test_sqrt() {
    assert_eq!(integer_sqrt(U256::from_u128(0)), U256::from_u128(0));
    assert_eq!(integer_sqrt(U256::from_u128(4)), U256::from_u128(2));
    assert_eq!(
        integer_sqrt(U256::from_u128(1_516_156_330_329)),
        U256::from_u128(1_231_323)
    );
}

#[test]
fn sqrt_wide_values() {
    // (2^64)^2 = 2^128: the square root of a value that only fits 256 bits.
    let big = U256::mul_u128(1u128 << 64, 1u128 << 64);
    assert_eq!(integer_sqrt(big), U256::from_u128(1u128 << 64));
    // One less than a perfect square rounds down.
    assert_eq!(integer_sqrt(U256::from_u128(35)), U256::from_u128(5));
}

#[test]
fn narrowing_a_wide_value() {
    assert_eq!(U256::from_u128(77).try_as_u128(), Some(77));
    assert_eq!(U256::mul_u128(1u128 << 64, 1u128 << 64).try_as_u128(), None);
}

#[test]
fn mul_u128_exact() {
    let r = U256::mul_u128(u128::MAX, u128::MAX);
    // (2^128 - 1)^2 = 2^256 - 2^129 + 1
    assert_eq!(r.hi, u128::MAX - 1);
    assert_eq!(r.lo, 1);
    assert_eq!(U256::mul_u128(0, u128::MAX), U256::from_u128(0));
}

#[test]
fn pow10_values() {
    assert_eq!(pow10_u128(0), Some(1));
    assert_eq!(pow10_u128(24), Some(1_000_000_000_000_000_000_000_000));
    assert_eq!(pow10_u128(38), Some(100_000_000_000_000_000_000_000_000_000_000_000_000));
    assert_eq!(pow10_u128(39), None);
}

#[test]
fn horizontal_sum_price_values() {
    let args = horizontal_args(100);
    let one = 1_000_000_000_000_000_000_000_000u128;
    assert_eq!(sum_price(&CurveType::Horizontal, &args, 24, 0), Ok(0));
    assert_eq!(sum_price(&CurveType::Horizontal, &args, 24, 1), Ok(100 * one));
    assert_eq!(sum_price(&CurveType::Horizontal, &args, 24, 200), Ok(20_000 * one));
}

#[test]
fn linear_sum_price_values() {
    // sum(n) = (2 n^2 / 2 + 3 n) * 1 = n^2 + 3 n
    let args = CurveArgs { arg_a: Some(2), arg_b: Some(3), arg_c: None, arg_d: None };
    assert_eq!(sum_price(&CurveType::Linear, &args, 0, 0), Ok(0));
    assert_eq!(sum_price(&CurveType::Linear, &args, 0, 1), Ok(4));
    assert_eq!(sum_price(&CurveType::Linear, &args, 0, 10), Ok(130));
    // Odd coefficient exercises the floor division by two:
    // sum(n) = (3 n^2 / 2 + 0) * 1
    let odd = CurveArgs { arg_a: Some(3), arg_b: Some(0), arg_c: None, arg_d: None };
    assert_eq!(sum_price(&CurveType::Linear, &odd, 0, 3), Ok(13));
}

#[test]
fn sigmoidal_sum_price_values() {
    // sum(n) = 1 * isqrt(c + (n+b)^2) + n * (d + a), with one unit of 1:
    // a=2, b=1, c=5, d=3 gives sum(n) = 2*isqrt(5 + (n+1)^2) + 5n.
    let args = CurveArgs { arg_a: Some(2), arg_b: Some(1), arg_c: Some(5), arg_d: Some(3) };
    // n=0: 2*isqrt(6) = 2*2 = 4.
    assert_eq!(sum_price(&CurveType::Sigmoidal, &args, 0, 0), Ok(4));
    // n=3: 2*isqrt(5+16) + 15 = 2*4 + 15 = 23.
    assert_eq!(sum_price(&CurveType::Sigmoidal, &args, 0, 3), Ok(23));
}

#[test]
fn sum_price_missing_args() {
    let no_args = CurveArgs { arg_a: None, arg_b: None, arg_c: None, arg_d: None };
    assert_eq!(
        sum_price(&CurveType::Horizontal, &no_args, 0, 1),
        Err(EscrowError::MissingCurveArg)
    );
    let only_a = horizontal_args(5);
    assert_eq!(
        sum_price(&CurveType::Linear, &only_a, 0, 1),
        Err(EscrowError::MissingCurveArg)
    );
    assert_eq!(
        sum_price(&CurveType::Sigmoidal, &only_a, 0, 1),
        Err(EscrowError::MissingCurveArg)
    );
}

#[test]
fn sum_price_overflow() {
    let args = horizontal_args(u128::MAX);
    assert_eq!(
        sum_price(&CurveType::Horizontal, &args, 0, 2),
        Err(EscrowError::Overflow)
    );
    // An unrepresentable unit scale is an overflow too.
    assert_eq!(
        sum_price(&CurveType::Horizontal, &horizontal_args(1), 39, 1),
        Err(EscrowError::Overflow)
    );
}

#[test]
fn token_price_skews_to_zero_below_pre_mint() {
    let args = horizontal_args(100);
    assert_eq!(token_price(&CurveType::Horizontal, &args, 0, 2, 0), Ok(0));
    assert_eq!(token_price(&CurveType::Horizontal, &args, 0, 2, 1), Ok(0));
    assert_eq!(token_price(&CurveType::Horizontal, &args, 0, 2, 2), Ok(100));
}

#[test]
fn quote_buy_additivity_example() {
    let args = CurveArgs { arg_a: Some(7), arg_b: Some(11), arg_c: None, arg_d: None };
    let q_one_step = quote_buy(&CurveType::Linear, &args, 0, 5, 8).unwrap();
    let q_first = quote_buy(&CurveType::Linear, &args, 0, 5, 3).unwrap();
    let q_second = quote_buy(&CurveType::Linear, &args, 0, 8, 5).unwrap();
    assert_eq!(q_first + q_second, q_one_step);
}

#[test]
fn buy_sell_round_trip_quotes() {
    // Buy 200 claims from supply 0, then quote selling exactly those ids:
    // the sell quote is the buy quote less the 1% treasury fee.
    let args = horizontal_args(100);
    let pre_mint = 2u128;
    let buy = quote_buy(&CurveType::Horizontal, &args, 24, 0, 200).unwrap();
    let ids: Vec<u128> = (0..200u128).map(|i| pre_mint + i).collect();
    let sell = quote_sell(&CurveType::Horizontal, &args, 24, pre_mint, 100, &ids).unwrap();
    assert_eq!(sell, buy * (10_000 - 100) / 10_000);
}

#[test]
fn quote_sell_rejects_excess_fee() {
    let args = horizontal_args(1);
    let ids: Vec<u128> = vec![0];
    assert_eq!(
        quote_sell(&CurveType::Horizontal, &args, 0, 0, 10_001, &ids),
        Err(EscrowError::Overflow)
    );
}
