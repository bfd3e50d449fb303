//! The two closed-form memory-model functions: retrievability and interval.
//!
//! The scheduling model uses a forgetting curve with factor `19/81` and decay
//! `-1/2`, so that retrievability after `t` days at stability `s` is
//! `1 / sqrt(1 + (19*t)/(81*s))`, and the interval until retrievability
//! decays to `r` is `(81*s/19) * (1/r^2 - 1)`: each is the other's inverse.
//! Quantities are carried in fixed point, as integer thousandths: a
//! retrievability of `0.9` is `900`, a stability of one day is `1000`.

use vstd::prelude::*;
use vstd::arithmetic::div_mod::lemma_fundamental_div_mod;

verus! {

/// The largest stability, in thousandths of a day, that the fixed-point
/// arithmetic accepts without overflow: a hundred million days.
pub open spec fn spec_stability_max() -> int {
    100_000_000_000
}

/// The interval, in thousandths of a day, until retrievability decays to
/// `r` thousandths, at stability `s` thousandths of a day:
/// `(81*s/19) * (1000000 - r^2) / r^2`, rounded towards zero.
pub open spec fn spec_interval_milli(r: int, s: int) -> int {
    (81 * s * (1_000_000 - r * r)) / (19 * (r * r))
}

/// The square of the retrievability after `t` thousandths of a day at
/// stability `s` thousandths, in millionths: `10^6 * 81*s / (81*s + 19*t)`,
/// rounded towards zero.
pub open spec fn spec_retrievability_sq(t: int, s: int) -> int {
    (81_000_000 * s) / (81 * s + 19 * t)
}

/// `r` is the integer square root of `n`.
pub open spec fn spec_is_sqrt(n: int, r: int) -> bool {
    &&& 0 <= r
    &&& r * r <= n
    &&& n < (r + 1) * (r + 1)
}

/// The integer square root of `n`, for `n` up to a million.
pub fn isqrt(n: u64) -> (r: u64)
    requires
        n <= 1_000_000,
    ensures
        spec_is_sqrt(n as int, r as int),
        r <= 1000,
{
    let mut r: u64 = 0;
    loop
        invariant
            n <= 1_000_000,
            r <= 1000,
            r * r <= n,
        ensures
            spec_is_sqrt(n as int, r as int),
            r <= 1000,
        decreases 1_000_000 - r,
    {
        proof {
            assert((r + 1) * (r + 1) <= 1_002_001) by (nonlinear_arith)
                requires
                    r <= 1000,
            {}
        }
        let next: u64 = (r + 1) * (r + 1);
        if n < next {
            break ;
        }
        r = r + 1;
        assert(r <= 1000) by (nonlinear_arith)
            requires
                r * r <= n,
                n <= 1_000_000,
                r >= 1,
        {}
    }
    r
}

/// The number of thousandths of a day until retrievability decays to `r`
/// thousandths, for an item of stability `s` thousandths of a day.
///
/// The result is exact in the fixed-point model: it equals
/// [`spec_interval_milli`]. A lower target retrievability gives a longer
/// interval ([`lemma_interval_monotone`]), and [`retrievability`] inverts
/// this function ([`lemma_round_trip`]).
pub fn interval(r: u64, s: u64) -> (i: u64)
    requires
        0 < r < 1000,
        0 < s <= spec_stability_max(),
    ensures
        i == spec_interval_milli(r as int, s as int),
{
    proof {
        assert(r * r < 1_000_000) by (nonlinear_arith)
            requires
                0 < r < 1000,
        {}
        assert(81 * (s as int) * (1_000_000 - (r as int) * (r as int)) < 0x1_0000_0000_0000_0000)
            by (nonlinear_arith)
            requires
                0 < s <= spec_stability_max(),
                0 < 1_000_000 - (r as int) * (r as int) <= 1_000_000,
        {}
        assert(0 < (r as int) * (r as int)) by (nonlinear_arith)
            requires
                0 < r,
        {}
    }
    let num: u64 = 81 * s * (1_000_000 - r * r);
    let den: u64 = 19 * (r * r);
    num / den
}

/// The retrievability, in thousandths, after `t` thousandths of a day for an
/// item of stability `s` thousandths of a day.
///
/// The result is the integer square root of [`spec_retrievability_sq`],
/// which pins it within one thousandth of the exact curve.
pub fn retrievability(t: u64, s: u64) -> (r: u64)
    requires
        0 < s <= spec_stability_max(),
        t <= spec_stability_max(),
    ensures
        spec_is_sqrt(spec_retrievability_sq(t as int, s as int), r as int),
        r <= 1000,
{
    let num: u64 = 81_000_000 * s;
    let den: u64 = 81 * s + 19 * t;
    let q: u64 = num / den;
    proof {
        assert(81_000_000 * s <= 81_000_000 * spec_stability_max()) by (nonlinear_arith)
            requires
                0 < s <= spec_stability_max(),
        {}
        assert(q <= 1_000_000) by {
            assert(num / den <= (81_000_000 * s) / (81 * s)) by {
                lemma_div_le_div(num as int, den as int, 81 * s);
            }
            assert((81_000_000 * s) / (81 * s) == 1_000_000) by (nonlinear_arith)
                requires
                    0 < s,
            {}
        }
    }
    isqrt(q)
}

/// Division by a larger positive divisor of the same dividend gives a result
/// that is no larger.
proof fn lemma_div_le_div(x: int, d1: int, d2: int)
    requires
        0 <= x,
        0 < d2 <= d1,
    ensures
        x / d1 <= x / d2,
{
    lemma_fundamental_div_mod(x, d1);
    lemma_fundamental_div_mod(x, d2);
    assert(x / d1 <= x / d2) by (nonlinear_arith)
        requires
            0 < d2 <= d1,
            x == d1 * (x / d1) + x % d1,
            x == d2 * (x / d2) + x % d2,
            0 <= x % d1 < d1,
            0 <= x % d2 < d2,
            0 <= x,
    {}
}

/// `x / y >= c` as soon as `x >= c * y`.
proof fn lemma_div_at_least(x: int, y: int, c: int)
    requires
        0 < y,
        0 <= c,
        c * y <= x,
    ensures
        c <= x / y,
{
    lemma_fundamental_div_mod(x, y);
    assert(c <= x / y) by (nonlinear_arith)
        requires
            0 < y,
            0 <= c,
            c * y <= x,
            x == y * (x / y) + x % y,
            0 <= x % y < y,
    {}
}

/// `x / y < c` as soon as `x < c * y`.
proof fn lemma_div_below(x: int, y: int, c: int)
    requires
        0 < y,
        0 <= x,
        x < c * y,
    ensures
        x / y < c,
{
    lemma_fundamental_div_mod(x, y);
    assert(x / y < c) by (nonlinear_arith)
        requires
            0 < y,
            0 <= x,
            x < c * y,
            x == y * (x / y) + x % y,
            0 <= x % y < y,
    {}
}

/// Monotonicity of intervals: at a fixed stability, a lower target
/// retrievability demands a wait at least as long, and the exact
/// (unrounded) interval is strictly longer: cross-multiplied,
/// `(10^6 - r2^2) * r1^2 < (10^6 - r1^2) * r2^2` whenever `r1 < r2`.
pub proof fn lemma_interval_monotone(r1: int, r2: int, s: int)
    requires
        0 < r1 < r2 < 1000,
        0 < s,
    ensures
        spec_interval_milli(r2, s) <= spec_interval_milli(r1, s),
        (1_000_000 - r2 * r2) * (r1 * r1) < (1_000_000 - r1 * r1) * (r2 * r2),
{
    assert((1_000_000 - r2 * r2) * (r1 * r1) < (1_000_000 - r1 * r1) * (r2 * r2))
        by (nonlinear_arith)
        requires
            0 < r1 < r2 < 1000,
    {}
    let n1 = 81 * s * (1_000_000 - r1 * r1);
    let d1 = 19 * (r1 * r1);
    let n2 = 81 * s * (1_000_000 - r2 * r2);
    let d2 = 19 * (r2 * r2);
    assert(n2 * d1 <= n1 * d2) by (nonlinear_arith)
        requires
            0 < s,
            (1_000_000 - r2 * r2) * (r1 * r1) < (1_000_000 - r1 * r1) * (r2 * r2),
            n1 == 81 * s * (1_000_000 - r1 * r1),
            d1 == 19 * (r1 * r1),
            n2 == 81 * s * (1_000_000 - r2 * r2),
            d2 == 19 * (r2 * r2),
    {}
    assert(0 <= n2 && 0 < d2 && 0 < d1) by (nonlinear_arith)
        requires
            0 < s,
            0 < r1 < r2 < 1000,
            n2 == 81 * s * (1_000_000 - r2 * r2),
            d1 == 19 * (r1 * r1),
            d2 == 19 * (r2 * r2),
    {}
    lemma_div_cross(n2, d2, n1, d1);
}

/// From `a * d <= c * b` (all positive denominators) follows
/// `a / b <= c / d` for integer division.
proof fn lemma_div_cross(a: int, b: int, c: int, d: int)
    requires
        0 <= a,
        0 < b,
        0 < d,
        a * d <= c * b,
    ensures
        a / b <= c / d,
{
    lemma_fundamental_div_mod(a, b);
    lemma_fundamental_div_mod(c, d);
    assert(a / b <= c / d) by (nonlinear_arith)
        requires
            0 <= a,
            0 < b,
            0 < d,
            a * d <= c * b,
            a == b * (a / b) + a % b,
            c == d * (c / d) + c % d,
            0 <= a % b < b,
            0 <= c % d < d,
    {}
}

/// Round trip: computing the interval for a target retrievability `r` and
/// asking for the retrievability after exactly that interval gives `r`
/// back: `r` is the integer square root of the squared retrievability at
/// `spec_interval_milli(r, s)`. Holds for stabilities of at least one day.
pub proof fn lemma_round_trip(r: int, s: int)
    requires
        0 < r < 1000,
        1000 <= s,
    ensures
        spec_is_sqrt(spec_retrievability_sq(spec_interval_milli(r, s), s), r),
{
    let rr = r * r;
    let big_n = 81 * s * (1_000_000 - rr);
    let big_d = 19 * rr;
    let t = spec_interval_milli(r, s);
    assert(0 < big_d) by (nonlinear_arith)
        requires
            0 < r,
            rr == r * r,
            big_d == 19 * rr,
    {}
    assert(0 <= big_n) by (nonlinear_arith)
        requires
            0 < s,
            0 < r < 1000,
            rr == r * r,
            big_n == 81 * s * (1_000_000 - rr),
    {}
    lemma_fundamental_div_mod(big_n, big_d);
    let m = big_n % big_d;
    // The interval satisfies 19 * rr * t == big_n - m with 0 <= m < big_d.
    assert(big_d * t == big_n - m);
    let q_num = 81_000_000 * s;
    let q_den = 81 * s + 19 * t;
    assert(0 <= t) by (nonlinear_arith)
        requires
            big_d * t == big_n - m,
            0 <= m < big_d,
            0 < big_d,
            0 <= big_n,
    {}
    // Lower bound: rr * q_den <= q_num, so the quotient is at least rr.
    assert(rr * q_den <= q_num) by (nonlinear_arith)
        requires
            big_d * t == big_n - m,
            0 <= m,
            big_n == 81 * s * (1_000_000 - rr),
            big_d == 19 * rr,
            q_num == 81_000_000 * s,
            q_den == 81 * s + 19 * t,
            rr == r * r,
            0 < r < 1000,
            0 < s,
    {}
    assert(0 < q_den) by (nonlinear_arith)
        requires
            0 < s,
            0 <= t,
            q_den == 81 * s + 19 * t,
    {}
    lemma_div_at_least(q_num, q_den, rr);
    // Upper bound: q_num < (r+1)^2 * q_den, so the quotient is below (r+1)^2.
    assert(q_num < (r + 1) * (r + 1) * q_den) by (nonlinear_arith)
        requires
            big_d * t == big_n - m,
            m < big_d,
            big_n == 81 * s * (1_000_000 - rr),
            big_d == 19 * rr,
            q_num == 81_000_000 * s,
            q_den == 81 * s + 19 * t,
            rr == r * r,
            0 < r < 1000,
            1000 <= s,
    {}
    lemma_div_below(q_num, q_den, (r + 1) * (r + 1));
    assert(spec_is_sqrt(q_num / q_den, r)) by (nonlinear_arith)
        requires
            0 < r,
            rr == r * r,
            rr <= q_num / q_den,
            q_num / q_den < (r + 1) * (r + 1),
    {}
}

} // verus!
