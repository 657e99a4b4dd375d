//! Rounding utilities for depositor-friendly arithmetic.
//!
//! Deposit interest and repayments round down (floor); withdrawals and liquidations
//! round up (ceiling). Both are exact floor and ceiling of the quotient, for numerators
//! and denominators of either sign, and a zero denominator yields 0.
use vstd::prelude::*;
use crate::lending::arith::{abs, trunc_div, in_i128, div_trunc};

verus! {

/// Scale for percentage calculations (10000 = 100%).
pub const PERCENTAGE_SCALE: i128 = 10000;

/// Scale for interest rate calculations.
pub const RATE_SCALE: i128 = 1_000_000;

/// The floor of the exact quotient `n / d`, for `d != 0`.
pub open spec fn floor_div(n: int, d: int) -> int {
    if d > 0 { n / d } else { (-n) / (-d) }
}

/// The ceiling of the exact quotient `n / d`, for `d != 0`.
pub open spec fn ceil_div(n: int, d: int) -> int {
    -floor_div(-n, d)
}

/// What `round_down(numerator, denominator)` returns: the floor of the quotient, 0 for a
/// zero denominator.
pub open spec fn spec_round_down(numerator: int, denominator: int) -> int {
    if denominator == 0 { 0 } else { floor_div(numerator, denominator) }
}

/// What `round_up(numerator, denominator)` returns: the ceiling of the quotient, 0 for a
/// zero denominator.
pub open spec fn spec_round_up(numerator: int, denominator: int) -> int {
    if denominator == 0 { 0 } else { ceil_div(numerator, denominator) }
}

/// The inputs whose rounded quotient fits in `i128`: all but `i128::MIN / -1`.
pub open spec fn round_down_defined(numerator: int, denominator: int) -> bool {
    !(numerator == i128::MIN && denominator == -1)
}

/// The inputs whose rounded-up quotient fits in `i128`: all but `i128::MIN / -1`.
pub open spec fn round_up_defined(numerator: int, denominator: int) -> bool {
    !(numerator == i128::MIN && denominator == -1)
}

/// The quotient truncated toward zero leaves a remainder smaller than the divisor, and
/// the product `quotient * divisor` lies between 0 and the numerator.
proof fn lemma_trunc_parts(n: int, d: int)
    requires
        d != 0,
    ensures
        abs(n - trunc_div(n, d) * d) < abs(d),
        n >= 0 ==> 0 <= trunc_div(n, d) * d <= n,
        n < 0 ==> n <= trunc_div(n, d) * d <= 0,
        abs(d) == 1 ==> n - trunc_div(n, d) * d == 0,
        abs(d) >= 2 ==> abs(trunc_div(n, d)) * 2 <= abs(n),
{
    let a = abs(n);
    let b = abs(d);
    let q = a / b;
    let m = a % b;
    vstd::arithmetic::div_mod::lemma_fundamental_div_mod(a, b);
    vstd::arithmetic::div_mod::lemma_mod_bound(a, b);
    vstd::arithmetic::div_mod::lemma_div_pos_is_pos(a, b);
    assert(0 <= q * b <= a) by (nonlinear_arith)
        requires a == b * q + m, 0 <= m < b, q >= 0;
    assert(abs(trunc_div(n, d)) == q);
    if b >= 2 {
        assert(q * 2 <= a) by (nonlinear_arith)
            requires q * b <= a, b >= 2, q >= 0;
    }
    if b == 1 {
        assert(m == 0);
    }
    if n >= 0 && d > 0 {
        assert(trunc_div(n, d) * d == q * b);
    } else if n < 0 && d < 0 {
        assert(trunc_div(n, d) * d == q * (-b)) by (nonlinear_arith)
            requires trunc_div(n, d) == q, d == -b;
        assert(q * (-b) == -(q * b)) by (nonlinear_arith);
    } else if n < 0 {
        assert(trunc_div(n, d) * d == (-q) * b) by (nonlinear_arith)
            requires trunc_div(n, d) == -q, d == b;
        assert((-q) * b == -(q * b)) by (nonlinear_arith);
    } else {
        assert(trunc_div(n, d) * d == (-q) * (-b)) by (nonlinear_arith)
            requires trunc_div(n, d) == -q, d == -b;
        assert((-q) * (-b) == q * b) by (nonlinear_arith);
    }
}

/// From any split `n == q * d + r` with `|r| < |d|`, the floor of `n / d` is `q`, or
/// `q - 1` when the remainder has the opposite sign of the divisor.
proof fn lemma_floor_from_split(n: int, d: int, q: int, r: int)
    requires
        d != 0,
        n == q * d + r,
        abs(r) < abs(d),
    ensures
        floor_div(n, d) == if (d > 0 && r < 0) || (d < 0 && r > 0) { q - 1 } else { q },
{
    if d > 0 {
        if r >= 0 {
            vstd::arithmetic::div_mod::lemma_fundamental_div_mod_converse(n, d, q, r);
        } else {
            assert(n == (q - 1) * d + (r + d)) by (nonlinear_arith)
                requires n == q * d + r;
            vstd::arithmetic::div_mod::lemma_fundamental_div_mod_converse(n, d, q - 1, r + d);
        }
    } else {
        if r <= 0 {
            assert(-n == q * (-d) + (-r)) by (nonlinear_arith)
                requires n == q * d + r;
            vstd::arithmetic::div_mod::lemma_fundamental_div_mod_converse(-n, -d, q, -r);
        } else {
            assert(-n == (q - 1) * (-d) + (-d - r)) by (nonlinear_arith)
                requires n == q * d + r;
            vstd::arithmetic::div_mod::lemma_fundamental_div_mod_converse(-n, -d, q - 1, -d - r);
        }
    }
}

/// From any split `n == q * d + r` with `|r| < |d|`, the ceiling of `n / d` is `q`, or
/// `q + 1` when the remainder has the sign of the divisor.
proof fn lemma_ceil_from_split(n: int, d: int, q: int, r: int)
    requires
        d != 0,
        n == q * d + r,
        abs(r) < abs(d),
    ensures
        ceil_div(n, d) == if (d > 0 && r > 0) || (d < 0 && r < 0) { q + 1 } else { q },
{
    assert(-n == (-q) * d + (-r)) by (nonlinear_arith)
        requires n == q * d + r;
    lemma_floor_from_split(-n, d, -q, -r);
}

/// Round down (floor) - depositor-friendly for deposits.
pub fn round_down(numerator: i128, denominator: i128) -> (r: i128)
    requires
        round_down_defined(numerator as int, denominator as int),
    ensures
        r == spec_round_down(numerator as int, denominator as int),
{
    if denominator == 0 {
        return 0;
    }
    let q = div_trunc(numerator, denominator);
    proof {
        lemma_trunc_parts(numerator as int, denominator as int);
    }
    let rem = numerator - q * denominator;
    proof {
        lemma_floor_from_split(numerator as int, denominator as int, q as int, rem as int);
    }
    if (denominator > 0 && rem < 0) || (denominator < 0 && rem > 0) {
        q - 1
    } else {
        q
    }
}

/// Round up (ceil) - depositor-friendly for withdrawals.
pub fn round_up(numerator: i128, denominator: i128) -> (r: i128)
    requires
        round_up_defined(numerator as int, denominator as int),
    ensures
        r == spec_round_up(numerator as int, denominator as int),
{
    if denominator == 0 {
        return 0;
    }
    let q = div_trunc(numerator, denominator);
    proof {
        lemma_trunc_parts(numerator as int, denominator as int);
    }
    let rem = numerator - q * denominator;
    proof {
        lemma_ceil_from_split(numerator as int, denominator as int, q as int, rem as int);
    }
    if (denominator > 0 && rem > 0) || (denominator < 0 && rem < 0) {
        q + 1
    } else {
        q
    }
}

/// Deposit interest `principal * rate / scale`, rounded down.
pub fn calculate_deposit_interest(principal: i128, rate: i128, scale: i128) -> (r: i128)
    requires
        in_i128(principal * rate),
        round_down_defined(principal * rate, scale as int),
    ensures
        r == spec_round_down(principal * rate, scale as int),
{
    round_down(principal * rate, scale)
}

/// Withdrawal amount `balance * fraction / scale`, rounded up.
pub fn calculate_withdraw_amount(balance: i128, fraction: i128, scale: i128) -> (r: i128)
    requires
        in_i128(balance * fraction),
        round_up_defined(balance * fraction, scale as int),
    ensures
        r == spec_round_up(balance * fraction, scale as int),
{
    round_up(balance * fraction, scale)
}

/// Repayment amount `debt * fraction / scale`, rounded down.
pub fn calculate_repay_amount(debt: i128, fraction: i128, scale: i128) -> (r: i128)
    requires
        in_i128(debt * fraction),
        round_down_defined(debt * fraction, scale as int),
    ensures
        r == spec_round_down(debt * fraction, scale as int),
{
    round_down(debt * fraction, scale)
}

/// Liquidation amount `debt * fraction / scale`, rounded up.
pub fn calculate_liquidation_amount(debt: i128, fraction: i128, scale: i128) -> (r: i128)
    requires
        in_i128(debt * fraction),
        round_up_defined(debt * fraction, scale as int),
    ensures
        r == spec_round_up(debt * fraction, scale as int),
{
    round_up(debt * fraction, scale)
}

/// Rounding up never gives less than rounding down: for the same numerator and
/// denominator, `round_up >= round_down`, so a withdrawal or liquidation amount is never
/// below the repayment or interest amount computed from the same inputs.
pub proof fn lemma_round_up_at_least_round_down(numerator: int, denominator: int)
    ensures
        spec_round_up(numerator, denominator) >= spec_round_down(numerator, denominator),
{
    if denominator != 0 {
        let q = trunc_div(numerator, denominator);
        lemma_trunc_parts(numerator, denominator);
        let r = numerator - q * denominator;
        lemma_floor_from_split(numerator, denominator, q, r);
        lemma_ceil_from_split(numerator, denominator, q, r);
    }
}

/// For a positive denominator and any numerator, `round_down` is the floor of the exact
/// quotient and `round_up` its ceiling, so they differ by at most one, and are equal
/// exactly when the denominator divides the numerator.
pub proof fn lemma_round_floor_ceiling(numerator: int, denominator: int)
    requires
        denominator > 0,
    ensures
        spec_round_down(numerator, denominator) * denominator <= numerator,
        numerator < (spec_round_down(numerator, denominator) + 1) * denominator,
        (spec_round_up(numerator, denominator) - 1) * denominator < numerator,
        numerator <= spec_round_up(numerator, denominator) * denominator,
        spec_round_up(numerator, denominator) - spec_round_down(numerator, denominator) <= 1,
        (spec_round_up(numerator, denominator) == spec_round_down(numerator, denominator))
            <==> numerator % denominator == 0,
{
    let n = numerator;
    let d = denominator;
    let f = n / d;
    let r = n % d;
    vstd::arithmetic::div_mod::lemma_fundamental_div_mod(n, d);
    vstd::arithmetic::div_mod::lemma_mod_bound(n, d);
    assert(f * d <= n < (f + 1) * d) by (nonlinear_arith)
        requires n == d * f + r, 0 <= r < d;
    assert(n == f * d + r) by (nonlinear_arith)
        requires n == d * f + r;
    lemma_ceil_from_split(n, d, f, r);
    let c = spec_round_up(n, d);
    assert((c - 1) * d < n <= c * d) by (nonlinear_arith)
        requires n == f * d + r, 0 <= r < d, (r == 0 ==> c == f), (r != 0 ==> c == f + 1);
}

/// Withdrawal amounts are never below repayment amounts for the same balance, fraction
/// and scale: `calculate_withdraw_amount >= calculate_repay_amount`, and likewise a
/// liquidation amount is never below the matching repayment amount.
pub proof fn lemma_withdraw_at_least_repay(balance: int, fraction: int, scale: int)
    ensures
        spec_round_up(balance * fraction, scale) >= spec_round_down(balance * fraction, scale),
{
    lemma_round_up_at_least_round_down(balance * fraction, scale);
}

} // verus!
