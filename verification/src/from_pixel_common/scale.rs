//! The arithmetic of scaling a position from one range to another: an exact
//! product and quotient, rounded to the nearest integer.

use vstd::arithmetic::div_mod::lemma_fundamental_div_mod_converse;
use vstd::prelude::*;

verus! {

/// `n / d` rounded to the nearest integer, a half rounded up (which is away
/// from zero), for `n` that is not negative and `d` that is positive.
pub open spec fn round_div(n: int, d: int) -> int {
    (2 * n + d) / (2 * d)
}

/// Where `level`, a position in a range of width `from_span`, comes to lie in
/// a range of width `to_span`: `level * to_span / from_span`, rounded to the
/// nearest integer.
pub open spec fn scaled(level: int, from_span: int, to_span: int) -> int {
    round_div(level * to_span, from_span)
}

/// `round_div(n, d)` is `n / d` where the remainder is under half of `d`, and
/// one more where it is not.
pub proof fn lemma_round_div(n: int, d: int, q: int, r: int)
    requires
        d > 0,
        0 <= r < d,
        n == q * d + r,
    ensures
        round_div(n, d) == if 2 * r >= d {
            q + 1
        } else {
            q
        },
{
    if 2 * r >= d {
        assert(2 * n + d == (q + 1) * (2 * d) + (2 * r - d)) by (nonlinear_arith)
            requires
                n == q * d + r,
        ;
        lemma_fundamental_div_mod_converse(2 * n + d, 2 * d, q + 1, 2 * r - d);
    } else {
        assert(2 * n + d == q * (2 * d) + (2 * r + d)) by (nonlinear_arith)
            requires
                n == q * d + r,
        ;
        lemma_fundamental_div_mod_converse(2 * n + d, 2 * d, q, 2 * r + d);
    }
}

/// `round_div(n, d)` is an integer nearest to `n / d`: it differs from the
/// exact quotient by at most a half.
pub proof fn lemma_round_div_is_nearest(n: int, d: int)
    requires
        0 <= n,
        0 < d,
    ensures
        -d <= 2 * (round_div(n, d) * d - n) <= d,
{
    let q = n / d;
    let r = n % d;
    assert(n == q * d + r && 0 <= r < d) by (nonlinear_arith)
        requires
            q == n / d,
            r == n % d,
            d > 0,
    ;
    lemma_round_div(n, d, q, r);
    assert((q + 1) * d == q * d + d) by (nonlinear_arith);
}

/// Where `d` is odd, `n / d` is never halfway between two integers, so that
/// `round_div(n, d)` is the one integer nearest to it, whichever way a half
/// would be rounded. The width of the range of an integer type is odd.
pub proof fn lemma_round_div_has_no_ties(n: int, d: int)
    requires
        0 <= n,
        0 < d,
        d % 2 == 1,
    ensures
        -d < 2 * (round_div(n, d) * d - n) < d,
{
    lemma_round_div_is_nearest(n, d);
    let twice = 2 * (round_div(n, d) * d - n);
    assert(twice % 2 == 0);
}

/// A level within the source range comes to lie within the target range.
pub proof fn lemma_scaled_bounds(level: int, from_span: int, to_span: int)
    requires
        0 <= level <= from_span,
        0 < from_span,
        0 <= to_span,
    ensures
        0 <= scaled(level, from_span, to_span) <= to_span,
{
    let n = level * to_span;
    let s = scaled(level, from_span, to_span);
    assert(0 <= n <= from_span * to_span) by (nonlinear_arith)
        requires
            n == level * to_span,
            0 <= level <= from_span,
            0 <= to_span,
    ;
    lemma_round_div_is_nearest(n, from_span);
    assert(0 <= s <= to_span) by (nonlinear_arith)
        requires
            -from_span <= 2 * (s * from_span - n) <= from_span,
            0 <= n <= from_span * to_span,
            0 < from_span,
            0 <= to_span,
    ;
}

/// The ends of the source range go to the ends of the target range.
pub proof fn lemma_scaled_ends(from_span: int, to_span: int)
    requires
        0 < from_span,
        0 <= to_span,
    ensures
        scaled(0, from_span, to_span) == 0,
        scaled(from_span, from_span, to_span) == to_span,
{
    assert(0 * to_span == 0 * from_span + 0) by (nonlinear_arith);
    lemma_round_div(0 * to_span, from_span, 0, 0);
    assert(from_span * to_span == to_span * from_span + 0) by (nonlinear_arith);
    lemma_round_div(from_span * to_span, from_span, to_span, 0);
}

/// Between ranges of one width nothing moves.
pub proof fn lemma_scaled_same_span(level: int, span: int)
    requires
        0 < span,
    ensures
        scaled(level, span, span) == level,
{
    lemma_round_div(level * span, span, level, 0);
}

/// A level that lies higher in the source range lies no lower in the target
/// range.
pub proof fn lemma_scaled_monotonic(low: int, high: int, from_span: int, to_span: int)
    requires
        0 <= low <= high,
        0 < from_span,
        0 <= to_span,
    ensures
        scaled(low, from_span, to_span) <= scaled(high, from_span, to_span),
{
    let a = 2 * (low * to_span) + from_span;
    let b = 2 * (high * to_span) + from_span;
    assert(a <= b) by (nonlinear_arith)
        requires
            a == 2 * (low * to_span) + from_span,
            b == 2 * (high * to_span) + from_span,
            0 <= low <= high,
            0 <= to_span,
    ;
    vstd::arithmetic::div_mod::lemma_div_is_ordered(a, b, 2 * from_span);
}

/// The quotient and the remainder of `a * b` by `c`, where the product may
/// be wider than a `u128`. It doubles the result for `b / 2` and adds `a`
/// once more where `b` is odd.
fn mul_div_rem(a: u128, b: u128, c: u128) -> (out: (u128, u128))
    requires
        a <= c,
        0 < c,
    ensures
        out.0 * c + out.1 == a * b,
        out.1 < c,
        out.0 <= b,
    decreases b,
{
    if b == 0 {
        assert(0 * c + 0 == a * 0) by (nonlinear_arith);
        return (0, 0);
    }
    let half: u128 = b / 2;
    let (q, r) = mul_div_rem(a, half, c);
    let odd: bool = b % 2 == 1;
    proof {
        assert(a * half <= c * half) by (nonlinear_arith)
            requires
                a <= c,
                0 <= half,
        ;
        assert(a * b == 2 * (a * half) + (if odd {
            a as int
        } else {
            0
        })) by (nonlinear_arith)
            requires
                b == 2 * half + (if odd {
                    1int
                } else {
                    0
                }),
        ;
    }
    let twice_q: u128;
    let twice_r: u128;
    if r >= c - r {
        assert(2 * q + 1 <= 2 * half) by (nonlinear_arith)
            requires
                q * c + r == a * half,
                a * half <= c * half,
                2 * r >= c,
                0 < c,
        ;
        twice_q = 2 * q + 1;
        twice_r = r - (c - r);
        assert(twice_q * c + twice_r == 2 * (a * half)) by (nonlinear_arith)
            requires
                twice_q == 2 * q + 1,
                twice_r == 2 * r - c,
                q * c + r == a * half,
        ;
    } else {
        assert(2 * q <= 2 * half);
        twice_q = 2 * q;
        twice_r = 2 * r;
        assert(twice_q * c + twice_r == 2 * (a * half)) by (nonlinear_arith)
            requires
                twice_q == 2 * q,
                twice_r == 2 * r,
                q * c + r == a * half,
        ;
    }
    if odd {
        if twice_r >= c - a {
            assert((twice_q + 1) * c + (twice_r + a - c) == a * b && twice_q + 1 <= b)
                by (nonlinear_arith)
                requires
                    twice_q * c + twice_r == 2 * (a * half),
                    a * b == 2 * (a * half) + a,
                    a * half <= c * half,
                    b == 2 * half + 1,
                    twice_r + a >= c,
                    a <= c,
                    0 < c,
            ;
            (twice_q + 1, twice_r - (c - a))
        } else {
            (twice_q, twice_r + a)
        }
    } else {
        (twice_q, twice_r)
    }
}

/// `a * b / c`, rounded to the nearest integer, computed without overflow
/// whatever the size of the product.
pub fn mul_div_round(a: u128, b: u128, c: u128) -> (out: u128)
    requires
        a <= c,
        0 < c,
    ensures
        out == round_div(a * b, c as int),
        out <= b,
{
    let q: u128;
    let r: u128;
    if b <= u64::MAX as u128 && c <= u64::MAX as u128 {
        assert(a * b <= u128::MAX && a * b <= c * b) by (nonlinear_arith)
            requires
                a <= c,
                c <= u64::MAX,
                b <= u64::MAX,
        ;
        let product: u128 = a * b;
        q = product / c;
        r = product % c;
        assert(q * c + r == a * b && q <= b) by (nonlinear_arith)
            requires
                product == a * b,
                q == product / c,
                r == product % c,
                a * b <= c * b,
                0 < c,
        ;
    } else {
        let (quotient, remainder) = mul_div_rem(a, b, c);
        q = quotient;
        r = remainder;
    }
    proof {
        lemma_round_div(a * b, c as int, q as int, r as int);
        if 2 * r >= c {
            assert(q < b) by (nonlinear_arith)
                requires
                    q * c + r == a * b,
                    a <= c,
                    2 * r >= c,
                    r < c,
                    0 < c,
                    q <= b,
            ;
        }
    }
    if r >= c - r {
        q + 1
    } else {
        q
    }
}

} // verus!
