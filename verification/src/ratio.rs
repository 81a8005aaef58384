//! Exact rational numbers in lowest terms.
//!
//! Several EDID fields are fixed-point fractions (chromaticity
//! coordinates over 1024, gamma over 100, fallback aspect ratios over
//! 100). [`Ratio`] represents them exactly as a reduced
//! numerator/denominator pair, so that two encodings of the same value
//! compare equal.

use vstd::arithmetic::div_mod::lemma_fundamental_div_mod;
use vstd::prelude::*;

verus! {

/// The greatest common divisor, by Euclid's algorithm.
pub open spec fn spec_gcd(a: nat, b: nat) -> nat
    decreases b,
{
    if b == 0 {
        a
    } else {
        spec_gcd(b, a % b)
    }
}

/// The gcd of `a` and a positive `b` is positive and divides both.
pub proof fn lemma_gcd_divides(a: nat, b: nat)
    requires
        b > 0,
    ensures
        spec_gcd(a, b) > 0,
        a % spec_gcd(a, b) == 0,
        b % spec_gcd(a, b) == 0,
    decreases b,
{
    let g = spec_gcd(a, b);
    let r = a % b;
    assert(0 <= r < b) by {
        lemma_fundamental_div_mod(a as int, b as int);
    }
    if r == 0 {
        assert(g == spec_gcd(b, 0)) by {
            reveal_with_fuel(spec_gcd, 2);
        }
        assert(g == b);
        assert(a % b == 0);
    } else {
        lemma_gcd_divides(b, r);
        assert(g == spec_gcd(b, r));
        // g divides b and r, and a == b * (a / b) + r, so g divides a.
        lemma_fundamental_div_mod(a as int, b as int);
        lemma_div_exact_mul(b, g);
        lemma_div_exact_mul(r, g);
        let q = a / b;
        assert(a == b * q + r);
        assert(a == g * (b / g) * q + g * (r / g));
        assert(g * (b / g) * q + g * (r / g) == g * ((b / g) * q + (r / g)))
            by (nonlinear_arith);
        lemma_mul_mod_zero(((b / g) * q + (r / g)) as int, g as int);
    }
}

/// If `x % d == 0` then `x == d * (x / d)`.
proof fn lemma_div_exact_mul(x: nat, d: nat)
    requires
        d > 0,
        x % d == 0,
    ensures
        x == d * (x / d),
{
    lemma_fundamental_div_mod(x as int, d as int);
}

/// A multiple of a positive `d` leaves no remainder.
proof fn lemma_mul_mod_zero(k: int, d: int)
    requires
        d > 0,
        k >= 0,
    ensures
        (d * k) % d == 0,
{
    assert((d * k) % d == 0) by (nonlinear_arith)
        requires
            d > 0,
            k >= 0,
    ;
}

/// Computes the greatest common divisor of `a` and `b`.
pub fn gcd(a: u32, b: u32) -> (g: u32)
    ensures
        g == spec_gcd(a as nat, b as nat),
    decreases b,
{
    if b == 0 {
        a
    } else {
        gcd(b, a % b)
    }
}

/// An exact non-negative rational number, kept in lowest terms by its
/// constructor.
#[derive(Clone, Copy, Debug, PartialEq, Eq, Structural)]
pub struct Ratio {
    pub numer: u32,
    pub denom: u32,
}

/// `n / d` in lowest terms.
pub open spec fn spec_ratio(n: nat, d: nat) -> Ratio
    recommends
        d > 0,
{
    let g = spec_gcd(n, d);
    Ratio { numer: (n / g) as u32, denom: (d / g) as u32 }
}

/// `r` has the value `n / d`.
pub open spec fn represents(r: Ratio, n: int, d: int) -> bool {
    &&& r.denom > 0
    &&& r.numer * d == n * r.denom
}

/// `a` is strictly below `b` as a rational value.
pub open spec fn ratio_lt(a: Ratio, b: Ratio) -> bool {
    a.numer * b.denom < b.numer * a.denom
}

/// The reduced form of `n / d` keeps its value.
pub proof fn lemma_spec_ratio_represents(n: nat, d: nat)
    requires
        d > 0,
        n <= u32::MAX,
        d <= u32::MAX,
    ensures
        represents(spec_ratio(n, d), n as int, d as int),
        spec_ratio(n, d).numer <= n,
        spec_ratio(n, d).denom <= d,
{
    let g = spec_gcd(n, d);
    lemma_gcd_divides(n, d);
    lemma_div_exact_mul(n, g);
    lemma_div_exact_mul(d, g);
    let rn = n / g;
    let rd = d / g;
    assert(d == g * rd);
    assert(rd > 0) by (nonlinear_arith)
        requires
            d == g * rd,
            d > 0,
    ;
    assert(rn <= n && rd <= d) by {
        assert(n == g * rn && d == g * rd);
        assert(g >= 1);
        assert(g * rn >= 1 * rn) by (nonlinear_arith)
            requires
                g >= 1,
                rn >= 0,
        ;
        assert(g * rd >= 1 * rd) by (nonlinear_arith)
            requires
                g >= 1,
                rd >= 0,
        ;
    }
    assert(rn * d == n * rd) by (nonlinear_arith)
        requires
            n == g * rn,
            d == g * rd,
    ;
}

impl Ratio {
    /// Builds the rational `n / d` in lowest terms.
    pub fn new(n: u32, d: u32) -> (r: Ratio)
        requires
            d > 0,
        ensures
            r == spec_ratio(n as nat, d as nat),
            represents(r, n as int, d as int),
            r.numer <= n,
            r.denom <= d,
    {
        proof {
            lemma_gcd_divides(n as nat, d as nat);
            lemma_spec_ratio_represents(n as nat, d as nat);
        }
        let g = gcd(n, d);
        Ratio { numer: n / g, denom: d / g }
    }
}

} // verus!
