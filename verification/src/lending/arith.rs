//! Integer helpers shared by the lending modules: truncating division as Rust's
//! `/` computes it on signed integers, and the saturating operations of `i128`.
use vstd::prelude::*;

verus! {

/// The absolute value of `a`.
pub open spec fn abs(a: int) -> int {
    if a < 0 { -a } else { a }
}

/// `a / b` rounded toward zero (what Rust's `/` computes on signed integers);
/// 0 when `b` is 0.
pub open spec fn trunc_div(a: int, b: int) -> int {
    if b == 0 {
        0
    } else if (a < 0) != (b < 0) {
        -(abs(a) / abs(b))
    } else {
        abs(a) / abs(b)
    }
}

/// Whether `v` is a value of `i128`.
pub open spec fn in_i128(v: int) -> bool {
    i128::MIN <= v <= i128::MAX
}

/// `v` clamped into the range of `i128`.
pub open spec fn clamp_i128(v: int) -> int {
    if v > i128::MAX {
        i128::MAX as int
    } else if v < i128::MIN {
        i128::MIN as int
    } else {
        v
    }
}

/// `a + b`, saturating at the bounds of `i128` (as `i128::saturating_add`).
pub fn sat_add(a: i128, b: i128) -> (r: i128)
    ensures
        r == clamp_i128(a + b),
{
    match a.checked_add(b) {
        Some(v) => v,
        None => if b > 0 { i128::MAX } else { i128::MIN },
    }
}

/// `a - b`, saturating at the bounds of `i128` (as `i128::saturating_sub`).
pub fn sat_sub(a: i128, b: i128) -> (r: i128)
    ensures
        r == clamp_i128(a - b),
{
    match a.checked_sub(b) {
        Some(v) => v,
        None => if b < 0 { i128::MAX } else { i128::MIN },
    }
}

/// `a * b`, saturating at the bounds of `i128` (as `i128::saturating_mul`).
pub fn sat_mul(a: i128, b: i128) -> (r: i128)
    ensures
        r == clamp_i128(a * b),
{
    match a.checked_mul(b) {
        Some(v) => v,
        None => {
            if (a < 0) == (b < 0) {
                assert(a * b >= 0) by (nonlinear_arith)
                    requires (a < 0) == (b < 0);
                i128::MAX
            } else {
                assert(a * b <= 0) by (nonlinear_arith)
                    requires (a < 0) != (b < 0);
                i128::MIN
            }
        },
    }
}

/// Rust's `/` on `i128`, for the inputs on which it does not overflow.
pub fn div_trunc(a: i128, b: i128) -> (r: i128)
    requires
        b != 0,
        !(a == i128::MIN && b == -1),
    ensures
        r == trunc_div(a as int, b as int),
{
    let ghost x = a as int;
    let ghost d = b as int;
    proof {
        vstd::arithmetic::div_mod::lemma_div_is_ordered_by_denominator(abs(x), 1, abs(d));
        vstd::arithmetic::div_mod::lemma_div_pos_is_pos(abs(x), abs(d));
        if abs(d) >= 2 {
            vstd::arithmetic::div_mod::lemma_div_is_ordered_by_denominator(abs(x), 2, abs(d));
        }
        assert(abs(x) / 1 == abs(x));
        if x > 0 && d > 0 {
            assert(x / d == abs(x) / abs(d));
        } else if x < 0 && d < 0 {
            assert((x * -1) / (d * -1) == abs(x) / abs(d));
        } else if x < 0 {
            assert(((x * -1) / d) * -1 == -(abs(x) / abs(d)));
        } else if x > 0 {
            assert((x / (d * -1)) * -1 == -(abs(x) / abs(d)));
        }
    }
    match a.checked_div(b) {
        Some(q) => q,
        None => {
            assert(false);
            0
        },
    }
}

/// `a / b` for a positive `b`, as `i128::saturating_div` computes it there.
pub fn div_pos(a: i128, b: i128) -> (r: i128)
    requires
        b > 0,
    ensures
        r == trunc_div(a as int, b as int),
{
    a / b
}

} // verus!
