use stellar_lend::lending::rounding::{
    calculate_deposit_interest, calculate_liquidation_amount, calculate_repay_amount,
    calculate_withdraw_amount, round_down, round_up, PERCENTAGE_SCALE, RATE_SCALE,
};

#[test]
fn test_round_down() {
    assert_eq!(round_down(10, 3), 3);
    assert_eq!(round_down(10, 2), 5);
    assert_eq!(round_down(9, 3), 3);
    assert_eq!(round_down(1, 2), 0);
    assert_eq!(round_down(0, 5), 0);
}

#[test]
fn test_round_up() {
    assert_eq!(round_up(10, 3), 4);
    assert_eq!(round_up(10, 2), 5);
    assert_eq!(round_up(9, 3), 3);
    assert_eq!(round_up(1, 2), 1);
    assert_eq!(round_up(0, 5), 0);
}

#[test]
fn test_calculate_deposit_interest() {
    assert_eq!(calculate_deposit_interest(1000, 500, 10000), 50);
    assert_eq!(calculate_deposit_interest(1000, 550, 10000), 55);
    assert_eq!(calculate_deposit_interest(1000, 555, 10000), 55);
}

#[test]
fn test_calculate_withdraw_amount() {
    assert_eq!(calculate_withdraw_amount(1000, 5000, 10000), 500);
    assert_eq!(calculate_withdraw_amount(1000, 3333, 10000), 334);
}

#[test]
fn test_calculate_repay_amount() {
    assert_eq!(calculate_repay_amount(1000, 5000, 10000), 500);
    assert_eq!(calculate_repay_amount(1000, 3333, 10000), 333);
}

#[test]
fn test_calculate_liquidation_amount() {
    assert_eq!(calculate_liquidation_amount(1000, 5000, 10000), 500);
    assert_eq!(calculate_liquidation_amount(1000, 3333, 10000), 334);
}

#[test]
fn test_rounding_asymmetry_prevention() {
    let balance = 1000;
    let fraction = 3333;
    let withdraw = calculate_withdraw_amount(balance, fraction, 10000);
    let repay = calculate_repay_amount(balance, fraction, 10000);
    assert!(withdraw >= repay);
}

#[test]
fn zero_denominator_gives_zero() {
    assert_eq!(round_down(12345, 0), 0);
    assert_eq!(round_up(12345, 0), 0);
    assert_eq!(calculate_withdraw_amount(10, 10, 0), 0);
}

#[test]
fn negative_values_round_to_floor_and_ceiling() {
    assert_eq!(round_down(-1, 2), -1);
    assert_eq!(round_down(-7, 2), -4);
    assert_eq!(round_down(7, -2), -4);
    assert_eq!(round_down(-7, -2), 3);
    assert_eq!(round_down(-6, 2), -3);
    assert_eq!(round_up(-4, 2), -2);
    assert_eq!(round_up(-7, 2), -3);
    assert_eq!(round_up(7, -2), -3);
    assert_eq!(round_up(-7, -2), 4);
    assert!(round_up(-4, 2) >= round_down(-4, 2));
}

#[test]
fn round_up_never_below_round_down() {
    for n in -50i128..50 {
        for d in [-7i128, -3, -1, 1, 2, 3, 10] {
            assert!(round_up(n, d) >= round_down(n, d));
        }
    }
}

#[test]
fn floor_and_ceiling_for_positive_denominators() {
    for n in -200i128..200 {
        for d in 1i128..13 {
            let lo = round_down(n, d);
            let hi = round_up(n, d);
            assert!(lo * d <= n && n < (lo + 1) * d);
            assert!((hi - 1) * d < n && n <= hi * d);
            assert_eq!(hi == lo, n.rem_euclid(d) == 0);
        }
    }
}

#[test]
fn scales_are_as_documented() {
    assert_eq!(PERCENTAGE_SCALE, 10000);
    assert_eq!(RATE_SCALE, 1_000_000);
    assert_eq!(calculate_deposit_interest(2_000_000, 25_000, RATE_SCALE), 50_000);
}

#[test]
fn extreme_operands() {
    assert_eq!(round_down(i128::MIN, 1), i128::MIN);
    assert_eq!(round_down(i128::MAX, -1), -i128::MAX);
    assert_eq!(round_up(i128::MAX - 1, 1), i128::MAX - 1);
    assert_eq!(round_up(i128::MAX, 2), 1i128 << 126);
    assert_eq!(round_down(i128::MIN, 2), -(1i128 << 126));
    assert_eq!(round_down(i128::MIN + 1, i128::MIN), 0);
    assert_eq!(round_down(1, i128::MIN), -1);
}
