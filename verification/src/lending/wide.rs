//! Exact arithmetic on integers wider than `i128`, as the interest formula needs it:
//! the product of a principal, a rate and an elapsed time has up to 318 bits before
//! it is divided back down. A value is a sign and a magnitude of three 128-bit words.
use vstd::prelude::*;

verus! {

/// 2^64.
pub open spec fn b64() -> int {
    0x1_0000_0000_0000_0000
}

/// 2^128.
pub open spec fn b128() -> int {
    b64() * b64()
}

/// 2^255.
pub open spec fn b255() -> int {
    0x8000_0000_0000_0000_0000_0000_0000_0000 * b128()
}

/// A non-negative integer below 2^384, as three 128-bit words, least significant last.
#[derive(Clone, Copy)]
pub struct Magnitude {
    pub w2: u128,
    pub w1: u128,
    pub w0: u128,
}

impl Magnitude {
    /// The integer the words stand for.
    pub open spec fn value(self) -> int {
        self.w2 * (b128() * b128()) + self.w1 * b128() + self.w0
    }
}

/// A signed integer: its sign and its magnitude.
#[derive(Clone, Copy)]
pub struct Wide {
    pub negative: bool,
    pub mag: Magnitude,
}

impl Wide {
    /// The integer this value stands for.
    pub open spec fn value(self) -> int {
        if self.negative { -self.mag.value() } else { self.mag.value() }
    }
}

proof fn lemma_magnitude_nonneg(m: Magnitude)
    ensures
        0 <= m.value() < b128() * b128() * b128(),
        m.w2 * (b128() * b128()) <= m.value(),
{
    assert(0 <= m.w2 * (b128() * b128()) <= (b128() - 1) * (b128() * b128())) by (nonlinear_arith)
        requires 0 <= m.w2 < b128(), b128() > 0;
    assert(0 <= m.w1 * b128() <= (b128() - 1) * b128()) by (nonlinear_arith)
        requires 0 <= m.w1 < b128(), b128() > 0;
    let bb = b128();
    assert(m.value() < bb * bb * bb) by (nonlinear_arith)
        requires m.value() == m.w2 * (bb * bb) + m.w1 * bb + m.w0,
            m.w2 * (bb * bb) <= (bb - 1) * (bb * bb), m.w1 * bb <= (bb - 1) * bb, m.w0 < bb;
}

proof fn lemma_b128_value()
    ensures
        b128() == u128::MAX + 1,
{
}

/// The full 256-bit product of two 128-bit words, as (high word, low word).
pub fn mul_u128(a: u128, b: u128) -> (r: (u128, u128))
    ensures
        r.0 * b128() + r.1 == a * b,
{
    let m: u128 = 0x1_0000_0000_0000_0000;
    let a0 = a % m;
    let a1 = a / m;
    let b0 = b % m;
    let b1 = b / m;
    proof {
        assert(a1 < m) by {
            vstd::arithmetic::div_mod::lemma_div_by_multiple_is_strongly_ordered(a as int, (b128()) as int, m as int, m as int);
        }
        assert(b1 < m) by {
            vstd::arithmetic::div_mod::lemma_div_by_multiple_is_strongly_ordered(b as int, (b128()) as int, m as int, m as int);
        }
    }
    assert(a0 * b0 <= (m - 1) * (m - 1)) by (nonlinear_arith)
        requires a0 < m, b0 < m;
    assert(a0 * b1 <= (m - 1) * (m - 1)) by (nonlinear_arith)
        requires a0 < m, b1 < m;
    assert(a1 * b0 <= (m - 1) * (m - 1)) by (nonlinear_arith)
        requires a1 < m, b0 < m;
    assert(a1 * b1 <= (m - 1) * (m - 1)) by (nonlinear_arith)
        requires a1 < m, b1 < m;
    let p00 = a0 * b0;
    let p01 = a0 * b1;
    let p10 = a1 * b0;
    let p11 = a1 * b1;
    let mid = p00 / m + p01 % m + p10 % m;
    let lo = (mid % m) * m + p00 % m;
    proof {
        assert(a == a1 * m + a0);
        assert(b == b1 * m + b0);
        assert(a * b == p11 * (m * m) + (p01 + p10) * m + p00) by (nonlinear_arith)
            requires a == a1 * m + a0, b == b1 * m + b0, p00 == a0 * b0, p01 == a0 * b1,
                p10 == a1 * b0, p11 == a1 * b1;
        let q00 = p00 / m;
        let r00 = p00 % m;
        let q01 = p01 / m;
        let r01 = p01 % m;
        let q10 = p10 / m;
        let r10 = p10 % m;
        let qm = mid / m;
        let rm = mid % m;
        assert(p00 == q00 * m + r00);
        assert(p01 == q01 * m + r01);
        assert(p10 == q10 * m + r10);
        assert(mid == qm * m + rm);
        let hi = p11 + q01 + q10 + qm;
        let mm = m * m;
        assert(a * b == p11 * mm + (p01 + p10) * m + p00);
        assert((p01 + p10) * m == (q01 + q10) * mm + (r01 + r10) * m) by (nonlinear_arith)
            requires p01 == q01 * m + r01, p10 == q10 * m + r10, mm == m * m;
        assert((r01 + r10 + q00) * m == qm * mm + rm * m) by (nonlinear_arith)
            requires mid == qm * m + rm, mid == q00 + r01 + r10, mm == m * m;
        assert(p00 == q00 * m + r00);
        assert(a * b == hi * mm + rm * m + r00) by (nonlinear_arith)
            requires a * b == p11 * mm + (p01 + p10) * m + p00,
                (p01 + p10) * m == (q01 + q10) * mm + (r01 + r10) * m,
                (r01 + r10 + q00) * m == qm * mm + rm * m,
                p00 == q00 * m + r00, hi == p11 + q01 + q10 + qm;
        assert(a * b <= (m * m - 1) * (m * m - 1)) by (nonlinear_arith)
            requires a < m * m, b < m * m, a >= 0, b >= 0;
        assert(hi * mm <= a * b) by (nonlinear_arith)
            requires a * b == hi * mm + rm * m + r00, rm >= 0, r00 >= 0, m > 0;
        assert(hi < mm) by (nonlinear_arith)
            requires hi * mm <= a * b, a * b <= (mm - 1) * (mm - 1), m > 1, mm == m * m;
    }
    let hi = p11 + p01 / m + p10 / m + mid / m;
    (hi, lo)
}

/// The magnitude `a * b * t`, for `a` and `b` at most 2^127.
pub fn mul3(a: u128, b: u128, t: u64) -> (r: Magnitude)
    requires
        a <= 0x8000_0000_0000_0000_0000_0000_0000_0000,
        b <= 0x8000_0000_0000_0000_0000_0000_0000_0000,
    ensures
        r.value() == a * b * t,
{
    let (h, l) = mul_u128(a, b);
    let (lh, ll) = mul_u128(l, t as u128);
    let (hh, hl) = mul_u128(h, t as u128);
    let ghost bb = b128();
    proof {
        assert(a * b <= b128() * b128() / 4) by (nonlinear_arith)
            requires a <= b128() / 2, b <= b128() / 2, a >= 0, b >= 0;
        assert(h * bb <= a * b) by (nonlinear_arith)
            requires h * bb + l == a * b, l >= 0;
        assert(h <= bb / 4) by (nonlinear_arith)
            requires h * bb <= a * b, a * b <= bb * bb / 4, bb == b128();
        assert(h * t <= (bb / 4) * (b64() - 1)) by (nonlinear_arith)
            requires h <= bb / 4, t < b64(), h >= 0, t >= 0;
        assert(hh * bb <= h * t) by (nonlinear_arith)
            requires hh * bb + hl == h * t, hl >= 0;
        assert(hh < b64()) by (nonlinear_arith)
            requires hh * bb <= h * t, h * t <= (bb / 4) * (b64() - 1), bb == b128(),
                b128() == b64() * b64();
        assert(a * b * t == (hh * bb + hl) * bb + lh * bb + ll) by (nonlinear_arith)
            requires h * bb + l == a * b, lh * bb + ll == l * t, hh * bb + hl == h * t;
    }
    proof {
        lemma_b128_value();
    }
    match hl.checked_add(lh) {
        Some(mid) => {
            let r = Magnitude { w2: hh, w1: mid, w0: ll };
            assert(r.value() == (hh * bb + hl) * bb + lh * bb + ll) by (nonlinear_arith)
                requires r.value() == hh * (bb * bb) + mid * bb + ll, mid == hl + lh;
            r
        },
        None => {
            let mid = hl - (u128::MAX - lh) - 1;
            let r = Magnitude { w2: hh + 1, w1: mid, w0: ll };
            assert(r.value() == (hh * bb + hl) * bb + lh * bb + ll) by (nonlinear_arith)
                requires r.value() == (hh + 1) * (bb * bb) + mid * bb + ll, mid == hl + lh - bb;
            r
        },
    }
}

/// One step of long division by `d`: `(rem * 2^64 + chunk) = q * d + r`.
fn div_step(rem: u128, chunk: u128, d: u64) -> (r: (u128, u128))
    requires
        d > 0,
        rem < d,
        chunk < b64(),
    ensures
        rem * b64() + chunk == r.0 * d + r.1,
        r.1 < d,
        r.0 < b64(),
{
    proof {
        assert(rem * b64() + chunk < d * b64()) by (nonlinear_arith)
            requires rem < d, chunk < b64(), rem >= 0;
        assert(d * b64() <= b128()) by (nonlinear_arith)
            requires d < b64(), d >= 0, b128() == b64() * b64();
    }
    let cur = rem * 0x1_0000_0000_0000_0000 + chunk;
    let q = cur / (d as u128);
    let r = cur % (d as u128);
    proof {
        vstd::arithmetic::div_mod::lemma_fundamental_div_mod(cur as int, d as int);
        assert(cur == q * d + r) by (nonlinear_arith)
            requires cur == d * q + r;
        assert(q < b64()) by (nonlinear_arith)
            requires cur == d * q + r, r >= 0, cur < d * b64(), d > 0;
    }
    (q, r)
}

/// Division of `rem * 2^128 + w` by `d`: quotient and remainder.
fn div_word(rem: u128, w: u128, d: u64) -> (r: (u128, u128))
    requires
        d > 0,
        rem < d,
    ensures
        rem * b128() + w == r.0 * d + r.1,
        r.1 < d,
{
    let m: u128 = 0x1_0000_0000_0000_0000;
    let wh = w / m;
    let wl = w % m;
    proof {
        assert(wh < m) by {
            vstd::arithmetic::div_mod::lemma_div_by_multiple_is_strongly_ordered(w as int, (b128()) as int, m as int, m as int);
        }
    }
    let (qh, r1) = div_step(rem, wh, d);
    let (ql, r2) = div_step(r1, wl, d);
    proof {
        assert(w == wh * m + wl);
        assert(rem * b128() + w == (qh * m + ql) * d + r2) by (nonlinear_arith)
            requires rem * m + wh == qh * d + r1, r1 * m + wl == ql * d + r2, w == wh * m + wl,
                b128() == m * m;
        assert(qh * m + ql < m * m) by (nonlinear_arith)
            requires qh < m, ql < m, qh >= 0, ql >= 0;
    }
    (qh * m + ql, r2)
}

/// `x / d` rounded down, for a magnitude `x` and a positive divisor `d`.
pub fn div_magnitude(x: Magnitude, d: u64) -> (r: Magnitude)
    requires
        d > 0,
    ensures
        r.value() == x.value() / (d as int),
{
    let (q2, r2) = div_word(0, x.w2, d);
    let (q1, r1) = div_word(r2, x.w1, d);
    let (q0, r0) = div_word(r1, x.w0, d);
    let q = Magnitude { w2: q2, w1: q1, w0: q0 };
    proof {
        let bb = b128();
        assert(x.value() == q.value() * d + r0) by (nonlinear_arith)
            requires x.w2 == q2 * d + r2, r2 * bb + x.w1 == q1 * d + r1, r1 * bb + x.w0 == q0 * d + r0,
                x.value() == x.w2 * (bb * bb) + x.w1 * bb + x.w0,
                q.value() == q2 * (bb * bb) + q1 * bb + q0;
        vstd::arithmetic::div_mod::lemma_fundamental_div_mod_converse(x.value(), d as int, q.value(), r0 as int);
    }
    q
}

/// `x + y`, for magnitudes whose sum is below 2^384.
pub fn add_magnitude(x: Magnitude, y: Magnitude) -> (r: Magnitude)
    requires
        x.value() + y.value() < b128() * b128() * b128(),
    ensures
        r.value() == x.value() + y.value(),
{
    proof {
        lemma_b128_value();
    }
    let (w0, c0): (u128, u128) = match x.w0.checked_add(y.w0) {
        Some(s) => (s, 0),
        None => (x.w0 - (u128::MAX - y.w0) - 1, 1),
    };
    let (w1, c1): (u128, u128) = match x.w1.checked_add(y.w1) {
        Some(s) => match s.checked_add(c0) {
            Some(s2) => (s2, 0),
            None => (0, 1),
        },
        None => (x.w1 - (u128::MAX - y.w1) - 1 + c0, 1),
    };
    proof {
        lemma_magnitude_nonneg(x);
        lemma_magnitude_nonneg(y);
        let bb = b128();
        assert(x.w2 + y.w2 + c1 < bb) by (nonlinear_arith)
            requires x.value() + y.value() < bb * bb * bb,
                x.value() == x.w2 * (bb * bb) + x.w1 * bb + x.w0,
                y.value() == y.w2 * (bb * bb) + y.w1 * bb + y.w0,
                x.w1 + y.w1 + c0 == w1 + c1 * bb, x.w0 + y.w0 == w0 + c0 * bb,
                0 <= w1 < bb, 0 <= w0 < bb, bb > 0, c1 >= 0, c0 >= 0,
                x.w1 >= 0, y.w1 >= 0, x.w0 >= 0, y.w0 >= 0;
    }
    let r = Magnitude { w2: x.w2 + y.w2 + c1, w1, w0 };
    proof {
        let bb = b128();
        assert(r.value() == x.value() + y.value()) by (nonlinear_arith)
            requires r.value() == (x.w2 + y.w2 + c1) * (bb * bb) + w1 * bb + w0,
                x.value() == x.w2 * (bb * bb) + x.w1 * bb + x.w0,
                y.value() == y.w2 * (bb * bb) + y.w1 * bb + y.w0,
                x.w1 + y.w1 + c0 == w1 + c1 * bb, x.w0 + y.w0 == w0 + c0 * bb;
    }
    r
}

/// Whether `x >= y`.
pub fn ge_magnitude(x: Magnitude, y: Magnitude) -> (r: bool)
    ensures
        r == (x.value() >= y.value()),
{
    proof {
        let bb = b128();
        assert(x.w1 * bb + x.w0 < (x.w1 + 1) * bb) by (nonlinear_arith)
            requires x.w0 < bb;
        assert(y.w1 * bb + y.w0 < (y.w1 + 1) * bb) by (nonlinear_arith)
            requires y.w0 < bb;
        assert(x.w1 * bb + x.w0 < bb * bb) by (nonlinear_arith)
            requires x.w0 < bb, x.w1 < bb;
        assert(y.w1 * bb + y.w0 < bb * bb) by (nonlinear_arith)
            requires y.w0 < bb, y.w1 < bb;
        assert(x.w2 > y.w2 ==> x.w2 * (bb * bb) >= y.w2 * (bb * bb) + bb * bb) by (nonlinear_arith)
            requires bb > 0;
        assert(x.w2 < y.w2 ==> y.w2 * (bb * bb) >= x.w2 * (bb * bb) + bb * bb) by (nonlinear_arith)
            requires bb > 0;
        assert(x.w1 > y.w1 ==> x.w1 * bb >= y.w1 * bb + bb) by (nonlinear_arith)
            requires bb > 0;
        assert(x.w1 < y.w1 ==> y.w1 * bb >= x.w1 * bb + bb) by (nonlinear_arith)
            requires bb > 0;
    }
    if x.w2 != y.w2 {
        x.w2 > y.w2
    } else if x.w1 != y.w1 {
        x.w1 > y.w1
    } else {
        x.w0 >= y.w0
    }
}

/// `x - y`, for `x >= y`.
pub fn sub_magnitude(x: Magnitude, y: Magnitude) -> (r: Magnitude)
    requires
        x.value() >= y.value(),
    ensures
        r.value() == x.value() - y.value(),
{
    let (w0, b0): (u128, u128) = if x.w0 >= y.w0 { (x.w0 - y.w0, 0) } else { (u128::MAX - y.w0 + x.w0 + 1, 1) };
    proof {
        lemma_b128_value();
    }
    let (w1, b1): (u128, u128) = if x.w1 > y.w1 || (x.w1 == y.w1 && b0 == 0) {
        (x.w1 - y.w1 - b0, 0)
    } else if b0 == 1 {
        ((u128::MAX - y.w1) + x.w1, 1)
    } else {
        ((u128::MAX - y.w1) + x.w1 + 1, 1)
    };
    proof {
        let bb = b128();
        lemma_magnitude_nonneg(x);
        lemma_magnitude_nonneg(y);
        assert(x.w2 >= y.w2 + b1) by (nonlinear_arith)
            requires x.value() >= y.value(),
                x.value() == x.w2 * (bb * bb) + x.w1 * bb + x.w0,
                y.value() == y.w2 * (bb * bb) + y.w1 * bb + y.w0,
                x.w1 - y.w1 - b0 == w1 - b1 * bb, x.w0 - y.w0 == w0 - b0 * bb,
                0 <= w1 < bb, 0 <= w0 < bb, bb > 0, b1 >= 0, b0 >= 0;
    }
    let r = Magnitude { w2: x.w2 - y.w2 - b1, w1, w0 };
    proof {
        let bb = b128();
        assert(r.value() == x.value() - y.value()) by (nonlinear_arith)
            requires r.value() == (x.w2 - y.w2 - b1) * (bb * bb) + w1 * bb + w0,
                x.value() == x.w2 * (bb * bb) + x.w1 * bb + x.w0,
                y.value() == y.w2 * (bb * bb) + y.w1 * bb + y.w0,
                x.w1 - y.w1 - b0 == w1 - b1 * bb, x.w0 - y.w0 == w0 - b0 * bb;
    }
    r
}

/// `x + y`, for values whose magnitudes are below 2^383.
pub fn add_wide(x: Wide, y: Wide) -> (r: Wide)
    requires
        x.mag.value() < b128() * b128() * b128() / 2,
        y.mag.value() < b128() * b128() * b128() / 2,
    ensures
        r.value() == x.value() + y.value(),
        r.mag.value() < b128() * b128() * b128(),
{
    proof {
        lemma_magnitude_nonneg(x.mag);
        lemma_magnitude_nonneg(y.mag);
    }
    if x.negative == y.negative {
        Wide { negative: x.negative, mag: add_magnitude(x.mag, y.mag) }
    } else if ge_magnitude(x.mag, y.mag) {
        Wide { negative: x.negative, mag: sub_magnitude(x.mag, y.mag) }
    } else {
        Wide { negative: y.negative, mag: sub_magnitude(y.mag, x.mag) }
    }
}

/// The value of `x` as an `i128`, or `None` when it does not fit.
pub fn wide_to_i128(x: Wide) -> (r: Option<i128>)
    ensures
        r == (if i128::MIN <= x.value() <= i128::MAX { Some(x.value() as i128) } else { None }),
{
    let limit: u128 = 0x8000_0000_0000_0000_0000_0000_0000_0000;
    proof {
        lemma_magnitude_nonneg(x.mag);
        let bb = b128();
        assert(x.mag.w2 > 0 ==> x.mag.value() >= bb * bb) by (nonlinear_arith)
            requires x.mag.value() == x.mag.w2 * (bb * bb) + x.mag.w1 * bb + x.mag.w0,
                x.mag.w1 >= 0, x.mag.w0 >= 0, bb > 0;
        assert(x.mag.w1 > 0 ==> x.mag.value() >= bb) by (nonlinear_arith)
            requires x.mag.value() == x.mag.w2 * (bb * bb) + x.mag.w1 * bb + x.mag.w0,
                x.mag.w2 >= 0, x.mag.w0 >= 0, bb > 0;
        assert(x.mag.w2 == 0 && x.mag.w1 == 0 ==> x.mag.value() == x.mag.w0) by (nonlinear_arith)
            requires x.mag.value() == x.mag.w2 * (bb * bb) + x.mag.w1 * bb + x.mag.w0;
        assert(bb * bb >= bb) by (nonlinear_arith)
            requires bb > 1;
        lemma_b128_value();
    }
    if x.mag.w2 != 0 || x.mag.w1 != 0 {
        None
    } else if x.negative {
        if x.mag.w0 <= limit {
            if x.mag.w0 == limit {
                Some(i128::MIN)
            } else {
                Some(-(x.mag.w0 as i128))
            }
        } else {
            None
        }
    } else if x.mag.w0 < limit {
        Some(x.mag.w0 as i128)
    } else {
        None
    }
}

/// The magnitude of an `i128`, as a `u128`.
pub fn magnitude_of(v: i128) -> (r: u128)
    ensures
        r == if v < 0 { -(v as int) } else { v as int },
        r <= 0x8000_0000_0000_0000_0000_0000_0000_0000,
{
    if v >= 0 {
        v as u128
    } else if v == i128::MIN {
        0x8000_0000_0000_0000_0000_0000_0000_0000
    } else {
        (-v) as u128
    }
}

/// Whether `p` lies outside the range of a signed 256-bit integer.
pub open spec fn outside_i256(p: int) -> bool {
    p < -b255() || p >= b255()
}

proof fn lemma_abs_product(a: int, b: int, t: int)
    requires
        t >= 0,
    ensures
        crate::lending::arith::abs(a * b * t) == crate::lending::arith::abs(a)
            * crate::lending::arith::abs(b) * t,
        (a * b * t < 0) ==> ((a < 0) != (b < 0)),
        (a * b * t > 0) ==> ((a < 0) == (b < 0)),
{
    assert(crate::lending::arith::abs(a * b * t) == crate::lending::arith::abs(a)
        * crate::lending::arith::abs(b) * t) by (nonlinear_arith)
        requires t >= 0;
    assert((a * b * t < 0) ==> ((a < 0) != (b < 0))) by (nonlinear_arith)
        requires t >= 0;
    assert((a * b * t > 0) ==> ((a < 0) == (b < 0))) by (nonlinear_arith)
        requires t >= 0;
}

/// The exact product `a * b * t` of two `i128` values and a `u64`.
pub fn mul_signed3(a: i128, b: i128, t: u64) -> (r: Wide)
    ensures
        r.value() == a * b * t,
        r.mag.value() <= 0x8000_0000_0000_0000_0000_0000_0000_0000 * b128() * b64(),
{
    let ma = magnitude_of(a);
    let mb = magnitude_of(b);
    let mag = mul3(ma, mb, t);
    let negative = (a < 0) != (b < 0);
    proof {
        lemma_abs_product(a as int, b as int, t as int);
        let h = 0x8000_0000_0000_0000_0000_0000_0000_0000int;
        assert(ma * mb * t <= h * h * b64()) by (nonlinear_arith)
            requires ma <= h, mb <= h, t < b64(), ma >= 0, mb >= 0, t >= 0;
        assert(h * h * b64() == h * b128() * b64() / 2);
        if mag.value() == 0 {
            assert(a * b * t == 0);
        }
    }
    Wide { negative, mag }
}

/// `x / d` rounded toward zero, for a positive divisor `d`.
pub fn div_wide(x: Wide, d: u64) -> (r: Wide)
    requires
        d > 0,
    ensures
        r.value() == crate::lending::arith::trunc_div(x.value(), d as int),
        r.mag.value() <= x.mag.value(),
{
    let q = div_magnitude(x.mag, d);
    proof {
        lemma_magnitude_nonneg(x.mag);
        vstd::arithmetic::div_mod::lemma_div_is_ordered_by_denominator(x.mag.value(), 1, d as int);
        vstd::arithmetic::div_mod::lemma_div_pos_is_pos(x.mag.value(), d as int);
    }
    Wide { negative: x.negative, mag: q }
}

/// Whether `a * b * t` lies outside the range of a signed 256-bit integer.
pub fn product_outside_i256(a: i128, b: i128, t: u64) -> (r: bool)
    ensures
        r == outside_i256(a * b * t),
{
    let p = mul_signed3(a, b, t);
    let bound = Magnitude { w2: 0, w1: 0x8000_0000_0000_0000_0000_0000_0000_0000, w0: 0 };
    assert(bound.value() == b255()) by (nonlinear_arith)
        requires bound.value() == 0 * (b128() * b128()) + 0x8000_0000_0000_0000_0000_0000_0000_0000 * b128() + 0,
            b255() == 0x8000_0000_0000_0000_0000_0000_0000_0000 * b128();
    if p.negative {
        !ge_magnitude(bound, p.mag)
    } else {
        ge_magnitude(p.mag, bound)
    }
}

} // verus!
