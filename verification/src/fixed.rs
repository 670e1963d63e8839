//! Fixed-point scalars.
//!
//! A fractional quantity `q` is held as the `i64` raw value `q * ONE`. Sums are
//! exact; products with a rational factor round toward zero.

use vstd::prelude::*;

verus! {

/// The raw value that stands for `1.0`.
pub const ONE: i64 = 1_000_000_000;

/// The value of the representable range that is nearest to `v`.
pub open spec fn saturate(v: int) -> int {
    if v < i64::MIN {
        i64::MIN as int
    } else if v > i64::MAX {
        i64::MAX as int
    } else {
        v
    }
}

/// The value of `[low, high]` that is nearest to `v`.
pub open spec fn clamp(v: int, low: int, high: int) -> int
    recommends
        low <= high,
{
    if v < low {
        low
    } else if v > high {
        high
    } else {
        v
    }
}

/// The absolute value of `v`.
pub open spec fn magnitude(v: int) -> int {
    if v < 0 {
        -v
    } else {
        v
    }
}

/// The quotient `n / d` rounded toward zero.
pub open spec fn quotient_toward_zero(n: int, d: int) -> int
    recommends
        d > 0,
{
    if n >= 0 {
        n / d
    } else {
        -((-n) / d)
    }
}

/// Adds two raw values, stopping at the ends of the representable range.
pub fn saturating_sum(a: i64, b: i64) -> (sum: i64)
    ensures
        sum == saturate(a + b),
    no_unwind
{
    if b >= 0 {
        if a > i64::MAX - b {
            i64::MAX
        } else {
            a + b
        }
    } else {
        if a < i64::MIN - b {
            i64::MIN
        } else {
            a + b
        }
    }
}

/// Divides by a positive number, rounding toward zero.
pub(crate) fn divide_toward_zero(n: i128, d: i128) -> (q: i128)
    requires
        d > 0,
        n > i128::MIN,
    ensures
        q == quotient_toward_zero(n as int, d as int),
    no_unwind
{
    if n >= 0 {
        let magnitude: u128 = n as u128;
        (magnitude / (d as u128)) as i128
    } else {
        let magnitude: u128 = (-n) as u128;
        -((magnitude / (d as u128)) as i128)
    }
}

/// Rounding toward zero never overshoots: the quotient has the sign of `n`,
/// and `d` times its magnitude falls short of the magnitude of `n` by less
/// than `d`.
pub proof fn lemma_quotient_toward_zero_bounds(n: int, d: int)
    requires
        d > 0,
    ensures
        n >= 0 ==> quotient_toward_zero(n, d) >= 0,
        n <= 0 ==> quotient_toward_zero(n, d) <= 0,
        d * magnitude(quotient_toward_zero(n, d)) <= magnitude(n),
        magnitude(n) < d * magnitude(quotient_toward_zero(n, d)) + d,
        n % d == 0 ==> d * quotient_toward_zero(n, d) == n,
{
    let m = magnitude(n);
    assert(m == d * (m / d) + m % d && 0 <= m % d < d && m / d >= 0) by (nonlinear_arith)
        requires
            d > 0,
            m >= 0,
    ;
    if n < 0 && n % d == 0 {
        let k = n / d;
        assert(n == d * k) by {
            vstd::arithmetic::div_mod::lemma_fundamental_div_mod(n, d);
        }
        assert(-n == (-k) * d + 0) by (nonlinear_arith)
            requires
                n == d * k,
        ;
        vstd::arithmetic::div_mod::lemma_fundamental_div_mod_converse(-n, d, -k, 0);
    }
}

} // verus!
