//! Golden-ratio and transcendental constants, and golden-ratio arithmetic.
//!
//! All constants in this module are exact integers in femto-units: the
//! number 1.0 is `FIXED_ONE` = 10^15, so each value carries fifteen decimal
//! places of the underlying real number.

use vstd::prelude::*;
use vstd::arithmetic::div_mod::{lemma_div_is_ordered, lemma_div_multiples_vanish};
use vstd::arithmetic::mul::{lemma_mul_inequality, lemma_mul_upper_bound};
use vstd::math::abs;

verus! {

/// The number 1.0 in femto-units; the scale of this module's constants.
pub const FIXED_ONE: u64 = 1_000_000_000_000_000;

/// The golden ratio (phi) = (1 + sqrt(5)) / 2, in femto-units.
pub const PHI: u64 = 1_618_033_988_749_895;

/// Inverse of the golden ratio (1/phi) = phi - 1, in femto-units.
pub const PHI_INVERSE: u64 = 618_033_988_749_895;

/// Phi squared = phi + 1, in femto-units.
pub const PHI_SQUARED: u64 = 2_618_033_988_749_895;

/// Square root of 2, in femto-units.
pub const SQRT_2: u64 = 1_414_213_562_373_095;

/// Square root of 3, in femto-units.
pub const SQRT_3: u64 = 1_732_050_807_568_877;

/// Square root of 5, in femto-units.
pub const SQRT_5: u64 = 2_236_067_977_499_790;

/// Pi, in femto-units.
pub const PI: u64 = 3_141_592_653_589_793;

/// Tau = 2 pi, in femto-units.
pub const TAU: u64 = 6_283_185_307_179_586;

/// Euler's number e, in femto-units.
pub const E: u64 = 2_718_281_828_459_045;

/// The algebraic identities that define the golden ratio hold exactly for
/// the femto-unit constants: phi^2 = phi + 1, 1/phi = phi - 1, and
/// sqrt(5) = 2 phi - 1; and the product phi * (1/phi) lands within one
/// femto-unit of 1.
pub proof fn lemma_phi_identities()
    ensures
        PHI_SQUARED == PHI + FIXED_ONE,
        PHI_INVERSE == PHI - FIXED_ONE,
        SQRT_5 == 2 * PHI - FIXED_ONE,
        TAU == 2 * PI,
        abs(PHI * PHI_INVERSE - FIXED_ONE * FIXED_ONE) < FIXED_ONE,
{
    assert(PHI * PHI_INVERSE == 1_000_000_000_000_000_339_424_862_511_025int);
}

/// The Fibonacci numbers: F(1) = F(2) = 1 and F(n) = F(n-1) + F(n-2).
pub open spec fn fib(n: nat) -> nat
    decreases n,
{
    if n == 0 {
        0
    } else if n <= 2 {
        1
    } else {
        fib((n - 1) as nat) + fib((n - 2) as nat)
    }
}

/// The Fibonacci numbers as a 64-bit counter computes them: clamped to
/// `u64::MAX` once they outgrow it.
pub open spec fn fib_sat(n: nat) -> nat {
    if fib(n) > u64::MAX {
        u64::MAX as nat
    } else {
        fib(n)
    }
}

/// The ratio F(n+1)/F(n) of consecutive Fibonacci numbers, in femto-units;
/// it approaches phi as n grows.  The Fibonacci values are computed with
/// saturating 64-bit addition, and the quotient rounds toward zero.
pub fn fibonacci_ratio(n: u32) -> (r: u64)
    requires
        n >= 1,
    ensures
        r == fib_sat((n + 1) as nat) * FIXED_ONE / (fib_sat(n as nat) as int),
{
    let mut prev: u64 = 1;
    let mut curr: u64 = 1;
    let mut i: u32 = 1;
    while i < n
        invariant
            1 <= i <= n,
            prev == fib_sat(i as nat),
            curr == fib_sat((i + 1) as nat),
            1 <= prev <= curr,
            curr <= 2 * (prev as int),
        decreases n - i,
    {
        let next: u64 = if prev > u64::MAX - curr {
            u64::MAX
        } else {
            prev + curr
        };
        proof {
            let gi = i as nat;
            assert(fib(gi + 2) == fib(gi + 1) + fib(gi));
            if gi + 1 <= 2 {
                assert(fib(gi) == 1 && fib(gi + 1) == 1);
            } else {
                assert(fib(gi + 1) == fib(gi) + fib((gi - 1) as nat));
            }
            assert(fib(gi) <= fib(gi + 1));
            if fib(gi + 1) > u64::MAX {
                assert(curr == u64::MAX);
                assert(next == u64::MAX);
                assert(fib(gi + 2) > u64::MAX);
            } else {
                assert(curr == fib(gi + 1));
                assert(prev == fib(gi));
                assert(prev + curr == fib(gi + 2));
            }
            assert(next == fib_sat(gi + 2));
        }
        prev = curr;
        curr = next;
        i = i + 1;
    }
    proof {
        lemma_mul_upper_bound(curr as int, u64::MAX as int, FIXED_ONE as int, FIXED_ONE as int);
    }
    let num: u128 = (curr as u128) * (FIXED_ONE as u128);
    let den: u128 = prev as u128;
    proof {
        let o = FIXED_ONE as int;
        let p = prev as int;
        let c = curr as int;
        lemma_mul_inequality(c, 2 * p, o);
        assert((2 * p) * o == p * (2 * o)) by (nonlinear_arith);
        lemma_div_is_ordered(c * o, p * (2 * o), p);
        lemma_div_multiples_vanish(2 * o, p);
        assert(c * o / p <= 2 * o);
    }
    let ratio: u128 = num / den;
    ratio as u64
}

/// Exact meaning of the golden-ratio test, cleared of denominators: both
/// inputs are positive and the larger-over-smaller ratio differs from phi
/// by less than `tolerance` (ratio and tolerance in femto-units).
pub open spec fn phi_ratio_spec(a: int, b: int, tolerance: int) -> bool {
    let lo = if a <= b { a } else { b };
    let hi = if a <= b { b } else { a };
    a > 0 && b > 0 && abs(hi * FIXED_ONE - lo * PHI) < tolerance * lo
}

/// Check whether two values are in golden ratio: the larger over the smaller
/// is within `tolerance` of phi.  The inputs may carry any common unit; the
/// tolerance is in femto-units.  Non-positive inputs are never in ratio.
pub fn is_phi_ratio(a: i64, b: i64, tolerance: u64) -> (r: bool)
    ensures
        r == phi_ratio_spec(a as int, b as int, tolerance as int),
{
    if a <= 0 || b <= 0 {
        return false;
    }
    let lo: i64 = if a <= b { a } else { b };
    let hi: i64 = if a <= b { b } else { a };
    proof {
        lemma_mul_upper_bound(hi as int, i64::MAX as int, FIXED_ONE as int, FIXED_ONE as int);
        lemma_mul_upper_bound(lo as int, i64::MAX as int, PHI as int, PHI as int);
        lemma_mul_upper_bound(tolerance as int, u64::MAX as int, lo as int, i64::MAX as int);
    }
    let scaled_hi: u128 = (hi as u128) * (FIXED_ONE as u128);
    let scaled_lo: u128 = (lo as u128) * (PHI as u128);
    let diff: u128 = if scaled_hi >= scaled_lo {
        scaled_hi - scaled_lo
    } else {
        scaled_lo - scaled_hi
    };
    let bound: u128 = (tolerance as u128) * (lo as u128);
    diff < bound
}

/// Default deviation from phi accepted by `is_phi_ratio_default`
/// (0.01, in femto-units).
pub const PHI_RATIO_TOLERANCE: u64 = 10_000_000_000_000;

/// Check whether two values are in golden ratio with the default tolerance.
pub fn is_phi_ratio_default(a: i64, b: i64) -> (r: bool)
    ensures
        r == phi_ratio_spec(a as int, b as int, PHI_RATIO_TOLERANCE as int),
{
    is_phi_ratio(a, b, PHI_RATIO_TOLERANCE)
}

/// Values are never in golden ratio when either is non-positive, whatever
/// the tolerance.
pub proof fn lemma_phi_ratio_needs_positive(a: int, b: int, tolerance: int)
    requires
        a <= 0 || b <= 0,
    ensures
        !phi_ratio_spec(a, b, tolerance),
{
}

} // verus!
