//! Floor and ceiling division on mathematical integers, and the facts about
//! them that the rest of the library is proved from.

use vstd::prelude::*;

verus! {

/// The largest integer `q` with `q * d <= n`, for `d > 0`.
pub open spec fn div_floor(n: int, d: int) -> int {
    n / d
}

/// The smallest integer `q` with `q * d >= n`, for `d > 0`.
pub open spec fn div_ceil(n: int, d: int) -> int {
    if n % d == 0 {
        n / d
    } else {
        n / d + 1
    }
}

/// `div_floor(n, d)` is the one integer `q` with `q * d <= n < (q + 1) * d`.
pub proof fn lemma_div_floor_bounds(n: int, d: int)
    requires
        d > 0,
    ensures
        div_floor(n, d) * d <= n < (div_floor(n, d) + 1) * d,
        n >= 0 ==> div_floor(n, d) >= 0,
{
    assert(n == d * (n / d) + n % d && 0 <= n % d < d) by (nonlinear_arith)
        requires
            d > 0,
    ;
    assert((n / d) * d == d * (n / d) && (n / d + 1) * d == d * (n / d) + d)
        by (nonlinear_arith);
    assert(n >= 0 ==> n / d >= 0) by (nonlinear_arith)
        requires
            d > 0,
    ;
}

/// Any `q` with `q * d <= n < (q + 1) * d` is `div_floor(n, d)`.
pub proof fn lemma_div_floor_unique(n: int, d: int, q: int)
    requires
        d > 0,
        q * d <= n < (q + 1) * d,
    ensures
        q == div_floor(n, d),
{
    lemma_div_floor_bounds(n, d);
    let f = div_floor(n, d);
    assert(q == f) by (nonlinear_arith)
        requires
            d > 0,
            q * d <= n < (q + 1) * d,
            f * d <= n < (f + 1) * d,
    ;
}

/// `div_ceil(n, d)` is the one integer `q` with `(q - 1) * d < n <= q * d`.
pub proof fn lemma_div_ceil_bounds(n: int, d: int)
    requires
        d > 0,
    ensures
        (div_ceil(n, d) - 1) * d < n <= div_ceil(n, d) * d,
        n >= 0 ==> div_ceil(n, d) >= 0,
        div_floor(n, d) <= div_ceil(n, d) <= div_floor(n, d) + 1,
{
    lemma_div_floor_bounds(n, d);
    let f = n / d;
    assert(n == d * f + n % d && 0 <= n % d < d) by (nonlinear_arith)
        requires
            d > 0,
            f == n / d,
    ;
    assert(f * d == d * f && (f + 1) * d == d * f + d && (f - 1) * d == d * f - d)
        by (nonlinear_arith);
}

/// Any `q` with `(q - 1) * d < n <= q * d` is `div_ceil(n, d)`.
pub proof fn lemma_div_ceil_unique(n: int, d: int, q: int)
    requires
        d > 0,
        (q - 1) * d < n <= q * d,
    ensures
        q == div_ceil(n, d),
{
    lemma_div_ceil_bounds(n, d);
    let c = div_ceil(n, d);
    assert(q == c) by (nonlinear_arith)
        requires
            d > 0,
            (q - 1) * d < n <= q * d,
            (c - 1) * d < n <= c * d,
    ;
}

/// The usual way to compute a ceiling with one truncating division.
pub proof fn lemma_div_ceil_by_rounding_up(n: int, d: int)
    requires
        d > 0,
    ensures
        (n + d - 1) / d == div_ceil(n, d),
{
    let q = (n + d - 1) / d;
    lemma_div_floor_bounds(n + d - 1, d);
    assert((q - 1) * d == q * d - d && (q + 1) * d == q * d + d) by (nonlinear_arith);
    lemma_div_ceil_unique(n, d, q);
}

/// A floor never exceeds a non-negative dividend.
pub proof fn lemma_div_floor_le_dividend(n: int, d: int)
    requires
        n >= 0,
        d > 0,
    ensures
        0 <= div_floor(n, d) <= n,
{
    lemma_div_floor_bounds(n, d);
    let f = div_floor(n, d);
    assert(f <= n) by (nonlinear_arith)
        requires
            d > 0,
            f >= 0,
            f * d <= n,
    ;
}

/// A ceiling never exceeds a non-negative dividend, and is zero only for a
/// dividend of zero.
pub proof fn lemma_div_ceil_le_dividend(n: int, d: int)
    requires
        n >= 0,
        d > 0,
    ensures
        0 <= div_ceil(n, d) <= n,
        div_ceil(n, d) == 0 <==> n == 0,
{
    lemma_div_ceil_bounds(n, d);
    let c = div_ceil(n, d);
    assert(c <= n && (c == 0 <==> n == 0)) by (nonlinear_arith)
        requires
            n >= 0,
            d > 0,
            c >= 0,
            (c - 1) * d < n <= c * d,
    ;
}

/// `dividend / divisor`, rounded up; `None` for a divisor of zero.
pub fn checked_ceil_div(dividend: u128, divisor: u128) -> (result: Option<u128>)
    ensures
        divisor == 0 ==> result is None,
        divisor > 0 ==> result == Some(div_ceil(dividend as int, divisor as int) as u128),
        divisor > 0 ==> div_ceil(dividend as int, divisor as int) <= dividend,
{
    let quotient = dividend.checked_div(divisor)?;
    let remainder = dividend.checked_rem(divisor)?;
    proof {
        lemma_div_ceil_le_dividend(dividend as int, divisor as int);
    }
    if remainder > 0 {
        quotient.checked_add(1)
    } else {
        Some(quotient)
    }
}

} // verus!
