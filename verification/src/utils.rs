//! Fixed-point interest arithmetic.
//!
//! The annual rate is given in basis points (hundredths of a percent) and
//! elapsed time in milliseconds, so the interest owed on a principal `p`
//! after `delta_ms` milliseconds is `floor(p * apr_bps * delta_ms /
//! (10_000 * MS_PER_YEAR))`, saturating at `u128::MAX`.

use vstd::arithmetic::div_mod::{
    lemma_div_is_ordered, lemma_div_multiples_vanish_fancy, lemma_fundamental_div_mod,
    lemma_mod_division_less_than_divisor, lemma_mod_is_zero,
};
use vstd::arithmetic::mul::lemma_mul_inequality;
use vstd::prelude::*;

verus! {

/// Milliseconds in one 365-day year: 365 * 24 * 60 * 60 * 1000.
pub const MS_PER_YEAR: u64 = 31_536_000_000;

/// Basis-point denominator: a rate of 10_000 bps is 100%.
pub const BPS_DENOM: u64 = 10_000;

/// The exact (unbounded) interest owed: numerator over denominator, rounded
/// towards zero.
pub open spec fn spec_yield(principal: u128, apr_bps: u16, delta_ms: u64) -> int {
    (principal as int * apr_bps as int * delta_ms as int)
        / (BPS_DENOM as int * MS_PER_YEAR as int)
}

/// The interest the executable computation returns: the exact interest,
/// saturated at the largest representable value.
pub open spec fn spec_yield_sat(principal: u128, apr_bps: u16, delta_ms: u64) -> u128 {
    if spec_yield(principal, apr_bps, delta_ms) > u128::MAX as int {
        u128::MAX
    } else {
        spec_yield(principal, apr_bps, delta_ms) as u128
    }
}

/// Addition on u128 that saturates at `u128::MAX` instead of wrapping.
pub open spec fn spec_sat_add(a: u128, b: u128) -> u128 {
    if a as int + b as int > u128::MAX as int {
        u128::MAX
    } else {
        (a + b) as u128
    }
}

/// Executable saturating addition, matching [`spec_sat_add`].
pub fn sat_add(a: u128, b: u128) -> (r: u128)
    ensures
        r == spec_sat_add(a, b),
{
    if a > u128::MAX - b {
        u128::MAX
    } else {
        a + b
    }
}

/// Addition on u32 that saturates at `u32::MAX` instead of wrapping, used
/// for accumulating approval weights.
pub open spec fn spec_sat_add_u32(a: u32, b: u32) -> u32 {
    if a as int + b as int > u32::MAX as int {
        u32::MAX
    } else {
        (a + b) as u32
    }
}

/// Executable saturating addition on u32, matching [`spec_sat_add_u32`].
pub fn sat_add_u32(a: u32, b: u32) -> (r: u32)
    ensures
        r == spec_sat_add_u32(a, b),
{
    if a > u32::MAX - b {
        u32::MAX
    } else {
        a + b
    }
}

/// Computes the interest owed on `principal` at an annual rate of
/// `apr_bps` basis points over `delta_ms` milliseconds: the exact value
/// `floor(principal * apr_bps * delta_ms / (10_000 * MS_PER_YEAR))`,
/// saturated at `u128::MAX`.
///
/// The numerator can exceed 128 bits, so the quotient is assembled from
/// the pieces of `principal` and of the rate-time product modulo the
/// denominator, none of which overflows.
pub fn compute_yield(principal: u128, apr_bps: u16, delta_ms: u64) -> (interest: u128)
    ensures
        interest == spec_yield_sat(principal, apr_bps, delta_ms),
{
    let d: u128 = 315_360_000_000_000;
    proof {
        assert(BPS_DENOM == 10_000 && MS_PER_YEAR == 31_536_000_000);
        assert(d as int == BPS_DENOM as int * MS_PER_YEAR as int) by (nonlinear_arith)
            requires
                d == 315_360_000_000_000u128,
                BPS_DENOM == 10_000u64,
                MS_PER_YEAR == 31_536_000_000u64,
        ;
        assert((apr_bps as int) * (delta_ms as int) <= 65535 * 0xffff_ffff_ffff_ffffint)
            by (nonlinear_arith)
            requires
                (apr_bps as int) <= 65535,
                0 <= (delta_ms as int) <= 0xffff_ffff_ffff_ffffint,
                (apr_bps as int) >= 0,
        ;
    }
    let m: u128 = (apr_bps as u128) * (delta_ms as u128);
    proof {
        assert(m as int == apr_bps as int * delta_ms as int);
        assert(principal as int * apr_bps as int * delta_ms as int == principal as int * (
        m as int)) by (nonlinear_arith)
            requires
                m as int == apr_bps as int * delta_ms as int,
        ;
    }
    if principal == 0 || m == 0 {
        proof {
            assert(principal as int * (m as int) == 0) by (nonlinear_arith)
                requires
                    principal == 0 || m == 0,
            ;
            assert(spec_yield(principal, apr_bps, delta_ms) == 0int / (d as int));
        }
        return 0;
    }
    let q: u128 = principal / d;
    let r: u128 = principal % d;
    let mq: u128 = m / d;
    let mr: u128 = m % d;
    proof {
        lemma_fundamental_div_mod(principal as int, d as int);
        lemma_fundamental_div_mod(m as int, d as int);
        lemma_mod_division_less_than_divisor(principal as int, d as int);
        lemma_mod_division_less_than_divisor(m as int, d as int);
        // r * mq stays at or below m, and r * mr below d * d, so the tail
        // of the quotient fits comfortably in 128 bits.
        assert((r as int * mq as int) <= m as int && (r as int * mr as int) < (d as int * d as int))
            by (nonlinear_arith)
            requires
                0 <= (r as int) < (d as int),
                0 <= (mr as int) < (d as int),
                0 <= (mq as int),
                m as int == d as int * mq as int + mr as int,
        ;
        assert(d as int * d as int <= u128::MAX as int) by (nonlinear_arith)
            requires
                d == 315_360_000_000_000,
        ;
        lemma_div_is_ordered(r as int * mr as int, d as int * d as int, d as int);
        lemma_mod_is_zero((d * d) as nat, d as nat);
        assert((d as int * d as int) / d as int == d as int) by (nonlinear_arith)
            requires
                (d as int) > 0,
        ;
    }
    let tail: u128 = r * mq + (r * mr) / d;
    proof {
        // The quotient of the full numerator decomposes into a head and the
        // tail computed above.
        assert(principal as int * m as int == d as int * (q as int * m as int + r as int
            * mq as int) + r as int * mr as int) by (nonlinear_arith)
            requires
                principal as int == d as int * q as int + r as int,
                m as int == d as int * mq as int + mr as int,
        ;
        lemma_fundamental_div_mod(r as int * mr as int, d as int);
        lemma_div_multiples_vanish_fancy(
            q as int * m as int + r as int * mq as int + (r as int * mr as int) / d as int,
            (r as int * mr as int) % d as int,
            d as int,
        );
        assert(d as int * (q as int * m as int + r as int * mq as int) + (d as int * ((r as int
            * mr as int) / d as int) + (r as int * mr as int) % d as int) == d as int * (q as int
            * m as int + r as int * mq as int + (r as int * mr as int) / d as int) + (r as int
            * mr as int) % d as int) by (nonlinear_arith);
        assert(spec_yield(principal, apr_bps, delta_ms) == q as int * m as int + tail as int);
    }
    if q > u128::MAX / m {
        proof {
            lemma_fundamental_div_mod(u128::MAX as int, m as int);
            lemma_mod_division_less_than_divisor(u128::MAX as int, m as int);
            lemma_mul_inequality(u128::MAX as int / m as int + 1, q as int, m as int);
            assert((u128::MAX as int / m as int + 1) * m as int == (u128::MAX as int / m as int)
                * m as int + m as int) by (nonlinear_arith);
            assert((u128::MAX as int / m as int) * m as int == m as int * (u128::MAX as int
                / m as int)) by (nonlinear_arith);
        }
        return u128::MAX;
    }
    proof {
        lemma_fundamental_div_mod(u128::MAX as int, m as int);
        lemma_mul_inequality(q as int, u128::MAX as int / m as int, m as int);
        assert((u128::MAX as int / m as int) * m as int <= u128::MAX as int) by (nonlinear_arith)
            requires
                u128::MAX as int == m as int * (u128::MAX as int / m as int) + u128::MAX as int
                    % m as int,
                (u128::MAX as int % m as int) >= 0,
        ;
    }
    let head: u128 = q * m;
    sat_add(head, tail)
}

/// Zero principal, a zero rate, or zero elapsed time yields zero interest.
pub proof fn lemma_yield_zero_inputs(principal: u128, apr_bps: u16, delta_ms: u64)
    requires
        principal == 0 || apr_bps == 0 || delta_ms == 0,
    ensures
        spec_yield(principal, apr_bps, delta_ms) == 0,
        spec_yield_sat(principal, apr_bps, delta_ms) == 0,
{
    assert(principal as int * apr_bps as int * delta_ms as int == 0) by (nonlinear_arith)
        requires
            principal == 0 || apr_bps == 0 || delta_ms == 0,
    ;
    assert(0int / (BPS_DENOM as int * MS_PER_YEAR as int) == 0);
}

/// Interest is monotonic in elapsed time: waiting at least as long earns
/// at least as much, both exactly and after saturation, and the resulting
/// principal is at least as large.
pub proof fn lemma_yield_monotonic(principal: u128, apr_bps: u16, d1: u64, d2: u64)
    requires
        d1 <= d2,
    ensures
        spec_yield(principal, apr_bps, d1) <= spec_yield(principal, apr_bps, d2),
        spec_yield_sat(principal, apr_bps, d1) <= spec_yield_sat(principal, apr_bps, d2),
        spec_sat_add(principal, spec_yield_sat(principal, apr_bps, d1)) <= spec_sat_add(
            principal,
            spec_yield_sat(principal, apr_bps, d2),
        ),
{
    assert(principal as int * apr_bps as int * d1 as int <= principal as int * apr_bps as int
        * d2 as int) by (nonlinear_arith)
        requires
            d1 <= d2,
            (principal as int) >= 0,
            (apr_bps as int) >= 0,
    ;
    lemma_div_is_ordered(
        principal as int * apr_bps as int * d1 as int,
        principal as int * apr_bps as int * d2 as int,
        BPS_DENOM as int * MS_PER_YEAR as int,
    );
}

} // verus!
