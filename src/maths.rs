//! Rounding division helpers.

use vstd::arithmetic::div_mod::{lemma_fundamental_div_mod, lemma_fundamental_div_mod_converse};
use vstd::prelude::*;

verus! {

/// The largest integer `q` with `q * d <= n` when `d > 0`, and with `q * d >= n`
/// when `d < 0`: the quotient `n / d` rounded towards negative infinity.
pub open spec fn floor_div(n: int, d: int) -> int {
    if d > 0 {
        n / d
    } else {
        (-n) / (-d)
    }
}

/// The quotient `n / d` rounded towards positive infinity.
pub open spec fn ceil_div(n: int, d: int) -> int {
    -floor_div(-n, d)
}

/// Division with an explicit rounding direction.
pub trait SpecificDivide: Sized {
    /// Whether the quotient of `n` by `d` is defined and representable.
    spec fn divide_defined(n: Self, d: Self) -> bool;

    fn ceiling_divide(n: Self, d: Self) -> Self
        requires
            Self::divide_defined(n, d),
    ;

    fn floor_divide(n: Self, d: Self) -> Self
        requires
            Self::divide_defined(n, d),
    ;
}

impl SpecificDivide for u64 {
    open spec fn divide_defined(n: u64, d: u64) -> bool {
        d != 0
    }

    fn ceiling_divide(n: u64, d: u64) -> (r: u64)
        ensures
            r == ceil_div(n as int, d as int),
    {
        let q: u64 = n / d;
        let rem: u64 = n % d;
        proof {
            lemma_ceil_from_remainder(n as int, d as int);
        }
        if rem != 0 {
            q + 1
        } else {
            q
        }
    }

    fn floor_divide(n: u64, d: u64) -> (r: u64)
        ensures
            r == floor_div(n as int, d as int),
    {
        n / d
    }
}

impl SpecificDivide for i64 {
    open spec fn divide_defined(n: i64, d: i64) -> bool {
        d != 0 && !(n == i64::MIN && d == -1)
    }

    fn ceiling_divide(n: i64, d: i64) -> (r: i64)
        ensures
            r == ceil_div(n as int, d as int),
    {
        proof {
            lemma_rounding_from_euclid(n as int, d as int);
        }
        match (n.checked_div_euclid(d), n.checked_rem_euclid(d)) {
            (Some(q), Some(rem)) => {
                if d > 0 && rem != 0 {
                    q + 1
                } else {
                    q
                }
            },
            _ => 0,
        }
    }

    fn floor_divide(n: i64, d: i64) -> (r: i64)
        ensures
            r == floor_div(n as int, d as int),
    {
        proof {
            lemma_rounding_from_euclid(n as int, d as int);
        }
        match (n.checked_div_euclid(d), n.checked_rem_euclid(d)) {
            (Some(q), Some(rem)) => {
                if d < 0 && rem != 0 {
                    q - 1
                } else {
                    q
                }
            },
            _ => 0,
        }
    }
}

/// Floor and ceiling quotients expressed through the Euclidean quotient and
/// remainder, for any dividend and divisor that fit in an `i64` quotient.
proof fn lemma_rounding_from_euclid(n: int, d: int)
    requires
        d != 0,
        i64::MIN <= n <= i64::MAX,
        i64::MIN <= d <= i64::MAX,
        !(n == i64::MIN && d == -1),
    ensures
        i64::MIN <= n / d <= i64::MAX,
        0 <= n % d <= i64::MAX,
        floor_div(n, d) == if d < 0 && n % d != 0 { n / d - 1 } else { n / d },
        ceil_div(n, d) == if d > 0 && n % d != 0 { n / d + 1 } else { n / d },
        i64::MIN <= floor_div(n, d) <= i64::MAX,
        i64::MIN <= ceil_div(n, d) <= i64::MAX,
{
    lemma_fundamental_div_mod(n, d);
    let q = n / d;
    let r = n % d;
    assert(n == d * q + r);
    assert(0 <= r < if d > 0 { d } else { -d });
    assert(r <= i64::MAX) by {
        if d > 0 {
            assert(r < d);
        } else {
            assert(r < -d);
        }
    }
    if d > 0 {
        lemma_negated_quotient(n, d);
        assert(i64::MIN <= q <= i64::MAX) by (nonlinear_arith)
            requires
                n == d * q + r,
                0 <= r < d,
                i64::MIN <= n <= i64::MAX,
        ;
        if r != 0 {
            assert(q + 1 <= i64::MAX) by (nonlinear_arith)
                requires
                    n == d * q + r,
                    0 < r < d,
                    n <= i64::MAX,
            ;
        }
    } else {
        let e = -d;
        assert(n == (-q) * e + r) by (nonlinear_arith)
            requires
                n == d * q + r,
                e == -d,
        ;
        lemma_fundamental_div_mod_converse(n, e, -q, r);
        lemma_negated_quotient(n, e);
        assert(i64::MIN <= q <= i64::MAX) by (nonlinear_arith)
            requires
                n == d * q + r,
                0 <= r < -d,
                d < 0,
                i64::MIN <= n <= i64::MAX,
                !(n == i64::MIN && d == -1),
        ;
        if r != 0 {
            assert(i64::MIN <= q - 1) by (nonlinear_arith)
                requires
                    n == d * q + r,
                    0 < r < -d,
                    d < 0,
                    i64::MIN <= n <= i64::MAX,
            ;
        }
    }
}

proof fn lemma_ceil_from_remainder(n: int, d: int)
    requires
        n >= 0,
        d > 0,
    ensures
        ceil_div(n, d) == if n % d != 0 { n / d + 1 } else { n / d },
        n % d != 0 ==> n / d < n,
{
    lemma_negated_quotient(n, d);
    lemma_fundamental_div_mod(n, d);
    let q = n / d;
    let r = n % d;
    if r != 0 {
        assert(q < n) by (nonlinear_arith)
            requires
                n == d * q + r,
                0 < r < d,
                q >= 0,
        ;
    }
}

/// The Euclidean quotient of `-n` by a positive `d`, from that of `n`.
proof fn lemma_negated_quotient(n: int, d: int)
    requires
        d > 0,
    ensures
        (-n) / d == if n % d != 0 { -(n / d) - 1 } else { -(n / d) },
{
    lemma_fundamental_div_mod(n, d);
    let q = n / d;
    let r = n % d;
    if r != 0 {
        assert(-n == (-q - 1) * d + (d - r)) by (nonlinear_arith)
            requires
                n == d * q + r,
        ;
        lemma_fundamental_div_mod_converse(-n, d, -q - 1, d - r);
    } else {
        assert(-n == (-q) * d + 0) by (nonlinear_arith)
            requires
                n == d * q + r,
                r == 0,
        ;
        lemma_fundamental_div_mod_converse(-n, d, -q, 0);
    }
}

/// For a positive dividend and divisor, the ceiling quotient is the least `q`
/// with `q * d >= n`: one quotient less falls short of `n`.
pub proof fn lemma_ceiling_divide_bounds(n: int, d: int)
    requires
        n > 0,
        d > 0,
    ensures
        (ceil_div(n, d) - 1) * d < n <= ceil_div(n, d) * d,
{
    lemma_ceil_from_remainder(n, d);
    lemma_fundamental_div_mod(n, d);
    let q = n / d;
    let r = n % d;
    if r != 0 {
        assert((q + 1 - 1) * d < n <= (q + 1) * d) by (nonlinear_arith)
            requires
                n == d * q + r,
                0 < r < d,
        ;
    } else {
        assert((q - 1) * d < n <= q * d) by (nonlinear_arith)
            requires
                n == d * q + r,
                r == 0,
                d > 0,
        ;
    }
}

} // verus!
