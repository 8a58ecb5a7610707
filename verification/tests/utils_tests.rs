//! Tests for the interest calculation.

use bridge_core::utils::{compute_yield, sat_add, sat_add_u32, BPS_DENOM, MS_PER_YEAR};

#[test]
fn zero_inputs_yield_zero() {
    assert_eq!(compute_yield(0, 500, 1_000), 0);
    assert_eq!(compute_yield(1_000, 0, 1_000), 0);
    assert_eq!(compute_yield(1_000, 500, 0), 0);
}

#[test]
fn accrues_proportionally() {
    // 5% annual rate: half a year on 1000 earns 25 (integer floor division).
    let principal: u128 = 1_000;
    let apr_bps: u16 = 500;
    let half_year_ms: u64 = 365 * 24 * 60 * 60 * 1000 / 2;
    let interest = compute_yield(principal, apr_bps, half_year_ms);
    assert_eq!(interest, 25);
}

#[test]
fn year_constants() {
    assert_eq!(MS_PER_YEAR, 365 * 24 * 60 * 60 * 1000);
    assert_eq!(BPS_DENOM, 10_000);
}

#[test]
fn full_year_full_rate_is_identity() {
    // 10_000 bps over exactly one year yields the principal itself.
    assert_eq!(compute_yield(123_456_789, 10_000, MS_PER_YEAR), 123_456_789);
}

#[test]
fn yield_rounds_down() {
    // One basis point over one millisecond on a small principal floors to 0.
    assert_eq!(compute_yield(1_000, 1, 1), 0);
    // 1 year at 1 bps on 10_000 yields exactly 1.
    assert_eq!(compute_yield(10_000, 1, MS_PER_YEAR), 1);
    // ... and on 19_999 still just 1.
    assert_eq!(compute_yield(19_999, 1, MS_PER_YEAR), 1);
}

#[test]
fn yield_monotonic_in_elapsed() {
    let mut last: u128 = 0;
    let mut delta: u64 = 0;
    while delta < 10 * MS_PER_YEAR {
        let y = compute_yield(1_000_000, 750, delta);
        assert!(y >= last);
        last = y;
        delta += MS_PER_YEAR / 3 + 1;
    }
}

#[test]
fn yield_saturates_at_max() {
    // The exact quotient exceeds u128::MAX here, so the result saturates.
    assert_eq!(compute_yield(u128::MAX, 10_000, 2 * MS_PER_YEAR), u128::MAX);
}

#[test]
fn huge_principal_exact_quotient() {
    // A product far beyond 128 bits still divides out exactly:
    // (2^127) * 10_000 bps * one year / (10_000 * one year) == 2^127.
    let p: u128 = 1u128 << 127;
    assert_eq!(compute_yield(p, 10_000, MS_PER_YEAR), p);
}

#[test]
fn saturating_adds() {
    assert_eq!(sat_add(u128::MAX - 1, 1), u128::MAX);
    assert_eq!(sat_add(u128::MAX, 5), u128::MAX);
    assert_eq!(sat_add(40, 2), 42);
    assert_eq!(sat_add_u32(u32::MAX - 1, 1), u32::MAX);
    assert_eq!(sat_add_u32(u32::MAX, 7), u32::MAX);
    assert_eq!(sat_add_u32(20, 22), 42);
}
