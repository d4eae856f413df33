use arb_engine::amount::TokenAmount;
use arb_engine::units::{scale_factor, to_human_value, MAX_SCALE_DECIMALS};
use ethers::types::U256;

#[test]
fn from_u128_splits_into_limbs() {
    assert_eq!(TokenAmount::from_u128(0), TokenAmount::from_limbs(0, 0, 0, 0));
    assert_eq!(TokenAmount::from_u128(5), TokenAmount::from_limbs(5, 0, 0, 0));
    assert_eq!(TokenAmount::from_u128(1 << 64), TokenAmount::from_limbs(0, 1, 0, 0));
    assert_eq!(TokenAmount::from_u128(u128::MAX), TokenAmount::from_limbs(u64::MAX, u64::MAX, 0, 0));
}

#[test]
fn decimal_digits_of_amounts() {
    assert_eq!(to_human_value(&TokenAmount::from_u128(0), 0), "0");
    assert_eq!(to_human_value(&TokenAmount::from_u128(9), 0), "9");
    assert_eq!(to_human_value(&TokenAmount::from_u128(10), 0), "10");
    assert_eq!(to_human_value(&TokenAmount::from_u128(1_000_500_000), 0), "1000500000");
    assert_eq!(
        to_human_value(&TokenAmount::from_limbs(0, 1, 0, 0), 0),
        "18446744073709551616"
    );
    assert_eq!(
        to_human_value(&TokenAmount::from_limbs(u64::MAX, u64::MAX, u64::MAX, u64::MAX), 0),
        "115792089237316195423570985008687907853269984665640564039457584007913129639935"
    );
}

#[test]
fn decimal_digits_agree_with_the_chain_integer() {
    for limbs in [[1u64, 2, 3, 4], [0, 0, 0, 1], [u64::MAX, 0, u64::MAX, 0]] {
        let amount = TokenAmount::from_limbs(limbs[0], limbs[1], limbs[2], limbs[3]);
        assert_eq!(to_human_value(&amount, 0), U256(limbs).to_string());
    }
}

fn chain(a: &TokenAmount) -> U256 {
    U256([a.w0, a.w1, a.w2, a.w3])
}

#[test]
fn arithmetic_agrees_with_the_chain_integer() {
    let samples = [
        TokenAmount::from_limbs(0, 0, 0, 0),
        TokenAmount::from_limbs(1, 0, 0, 0),
        TokenAmount::from_limbs(u64::MAX, 0, 0, 0),
        TokenAmount::from_limbs(0, 1, 0, 0),
        TokenAmount::from_limbs(5, u64::MAX, 7, 0),
        TokenAmount::from_limbs(0, 0, 0, 1),
        TokenAmount::from_limbs(u64::MAX, u64::MAX, u64::MAX, u64::MAX),
        TokenAmount::from_limbs(9, 8, 7, 6),
        TokenAmount::from_limbs(6, 7, 8, 9),
    ];
    for a in samples.iter() {
        for b in samples.iter() {
            assert_eq!(a.gt(b), chain(a) > chain(b));
            assert_eq!(a.checked_sub(b).map(|d| chain(&d)), chain(a).checked_sub(chain(b)));
            assert_eq!(chain(&a.abs_diff(b)), chain(a).abs_diff(chain(b)));
        }
    }
    for v in [0u128, 1, u64::MAX as u128, 1 << 64, u128::MAX, 123_456_789_000_000_000_000_000] {
        assert_eq!(chain(&TokenAmount::from_u128(v)), U256::from(v));
    }
}

#[test]
fn checked_sub_gives_the_difference_or_nothing() {
    let a = TokenAmount::from_limbs(0, 0, 1, 0);
    let b = TokenAmount::from_u128(1);
    assert_eq!(a.checked_sub(&b), Some(TokenAmount::from_limbs(u64::MAX, u64::MAX, 0, 0)));
    assert_eq!(b.checked_sub(&a), None);
    assert_eq!(a.checked_sub(&a), Some(TokenAmount::from_u128(0)));
}

#[test]
fn gt_orders_by_value_not_by_lowest_limb() {
    let a = TokenAmount::from_limbs(9, 0, 0, 0);
    let b = TokenAmount::from_limbs(0, 1, 0, 0);
    assert!(b.gt(&a));
    assert!(!a.gt(&b));
    assert!(!a.gt(&a));
}

#[test]
fn no_decimals_gives_the_integer() {
    assert_eq!(to_human_value(&TokenAmount::from_u128(0), 0), "0");
    assert_eq!(to_human_value(&TokenAmount::from_u128(1234), 0), "1234");
}

#[test]
fn fewer_digits_than_decimals_are_padded() {
    assert_eq!(to_human_value(&TokenAmount::from_u128(5), 3), "0.005");
    assert_eq!(to_human_value(&TokenAmount::from_u128(0), 6), "0.000000");
    assert_eq!(to_human_value(&TokenAmount::from_u128(1), 18), "0.000000000000000001");
}

#[test]
fn as_many_digits_as_decimals_stand_behind_the_point() {
    assert_eq!(to_human_value(&TokenAmount::from_u128(500_000), 6), "0.500000");
    assert_eq!(to_human_value(&TokenAmount::from_u128(7), 1), "0.7");
}

#[test]
fn more_digits_than_decimals_are_split() {
    assert_eq!(to_human_value(&TokenAmount::from_u128(10_000_000), 6), "10.000000");
    assert_eq!(to_human_value(&TokenAmount::from_u128(1_234_567), 6), "1.234567");
    assert_eq!(to_human_value(&TokenAmount::from_u128(12), 1), "1.2");
}

#[test]
fn amounts_beyond_float_precision_keep_every_digit() {
    let max = TokenAmount::from_limbs(u64::MAX, u64::MAX, u64::MAX, u64::MAX);
    assert_eq!(
        to_human_value(&max, 18),
        "115792089237316195423570985008687907853269984665640564039457.584007913129639935"
    );
    assert_eq!(
        to_human_value(&TokenAmount::from_u128(9_007_199_254_740_993), 2),
        "90071992547409.93"
    );
}

#[test]
fn human_value_of_base_units_is_close_to_the_value_converted() {
    let cases: [(f64, u32); 6] =
        [(1.5, 6), (0.000001, 6), (2.0, 0), (123.456, 3), (0.1, 18), (1.0, 18)];
    for (x, d) in cases {
        let scale = 10u128.pow(d) as f64;
        let base = (x * scale).round() as u128;
        let text = to_human_value(&TokenAmount::from_u128(base), d);
        let back: f64 = text.parse().unwrap();
        assert!((back - x).abs() <= 1.0 / scale, "{} at {} decimals gave {}", x, d, text);
    }
}

#[test]
fn half_a_unit_and_ten_units_at_six_decimals() {
    let half: f64 = to_human_value(&TokenAmount::from_u128(500_000), 6).parse().unwrap();
    assert_eq!(half, 0.5);
    let ten: f64 = to_human_value(&TokenAmount::from_u128(10_000_000), 6).parse().unwrap();
    assert_eq!(ten, 10.0);
}

#[test]
fn scale_factor_is_a_power_of_ten_while_it_fits() {
    assert_eq!(scale_factor(0), Some(1));
    assert_eq!(scale_factor(6), Some(1_000_000));
    assert_eq!(scale_factor(18), Some(1_000_000_000_000_000_000));
    assert_eq!(scale_factor(38), Some(100_000_000_000_000_000_000_000_000_000_000_000_000));
    assert_eq!(scale_factor(MAX_SCALE_DECIMALS), Some(10u128.pow(38)));
    assert_eq!(scale_factor(39), None);
    assert_eq!(scale_factor(255), None);
    assert_eq!(scale_factor(u32::MAX), None);
}
