//! Durations, measured in nanoseconds, and the exponential backoff rule.
use vstd::prelude::*;

use std::time::Duration;

verus! {

/// What `Duration::as_nanos` returns for `d`.
pub uninterp spec fn duration_as_nanos(d: Duration) -> u128;

/// Nanoseconds in a second.
pub const NANOS_PER_SEC: u128 = 1_000_000_000;

/// Nanoseconds held by `Duration::MAX` (`u64::MAX` seconds and 999,999,999 nanoseconds).
pub open spec fn max_duration_nanos() -> int {
    u64::MAX as int * 1_000_000_000 + 999_999_999
}

/// `Duration::as_nanos`: the total number of whole nanoseconds in `d`.
#[verifier::external_body]
pub(crate) fn nanos_of(d: Duration) -> (r: u128)
    ensures
        r == duration_as_nanos(d),
{
    d.as_nanos()
}

/// `Duration::new`: `secs` seconds and `nanos` nanoseconds; with `nanos`
/// below one second no carry happens.
#[verifier::external_body]
pub(crate) fn duration_new(secs: u64, nanos: u32) -> (d: Duration)
    requires
        nanos < 1_000_000_000,
    ensures
        duration_as_nanos(d) == secs as int * 1_000_000_000 + nanos as int,
{
    Duration::new(secs, nanos)
}

/// A duration of `ms` milliseconds.
pub fn duration_from_millis(ms: u64) -> (d: Duration)
    ensures
        duration_as_nanos(d) == ms as int * 1_000_000,
{
    let secs = ms / 1000;
    let rem = (ms % 1000) as u32;
    let d = duration_new(secs, rem * 1_000_000);
    assert(secs as int * 1_000_000_000 + (rem * 1_000_000) as int == ms as int * 1_000_000) by (nonlinear_arith)
        requires
            secs == ms / 1000,
            rem == ms % 1000,
    ;
    d
}

/// A duration of `s` seconds.
pub fn duration_from_secs(s: u64) -> (d: Duration)
    ensures
        duration_as_nanos(d) == s as int * 1_000_000_000,
{
    duration_new(s, 0)
}

/// `2^e` capped at `u32::MAX` (`2_u32.saturating_pow(e)`).
pub open spec fn sat_pow2(e: nat) -> int
    decreases e,
{
    if e == 0 {
        1
    } else {
        let p = 2 * sat_pow2((e - 1) as nat);
        if p > u32::MAX { u32::MAX as int } else { p }
    }
}

pub open spec fn min_int(a: int, b: int) -> int {
    if a <= b { a } else { b }
}

/// Delay before the `attempt`-th retry: `initial * 2^(attempt - 1)`, the
/// factor capped at `u32::MAX`, the product at `Duration::MAX`, and the
/// result at `max`.
pub open spec fn backoff_nanos(initial: int, max: int, attempt: u32) -> int {
    let factor = sat_pow2((if attempt == 0 { 0 } else { attempt - 1 }) as nat);
    min_int(min_int(initial * factor, max_duration_nanos()), max)
}

proof fn lemma_sat_pow2_bounds(e: nat)
    ensures
        1 <= sat_pow2(e) <= u32::MAX,
    decreases e,
{
    if e > 0 {
        lemma_sat_pow2_bounds((e - 1) as nat);
    }
}

fn saturating_pow2(e: u32) -> (r: u32)
    ensures
        r == sat_pow2(e as nat),
{
    let mut p: u32 = 1;
    let mut i: u32 = 0;
    while i < e
        invariant
            i <= e,
            p == sat_pow2(i as nat),
        decreases e - i,
    {
        proof {
            lemma_sat_pow2_bounds(i as nat);
        }
        if p > 2147483647 {
            p = 4294967295;
        } else {
            p = p * 2;
        }
        i = i + 1;
    }
    p
}

/// The exponential backoff delay for `attempt` (1-indexed).
pub fn backoff_delay(initial: Duration, max: Duration, attempt: u32) -> (d: Duration)
    ensures
        duration_as_nanos(d) == backoff_nanos(duration_as_nanos(initial) as int, duration_as_nanos(max) as int, attempt),
{
    let e = if attempt == 0 { 0 } else { attempt - 1 };
    let factor = saturating_pow2(e);
    let init = nanos_of(initial);
    let cap: u128 = 18446744073709551615u128 * 1_000_000_000u128 + 999_999_999u128;
    let exp: u128 = match init.checked_mul(factor as u128) {
        Some(p) => if p > cap { cap } else { p },
        None => cap,
    };
    let m = nanos_of(max);
    let n: u128 = if exp <= m { exp } else { m };
    assert(n <= cap);
    let secs = (n / NANOS_PER_SEC) as u64;
    let sub = (n % NANOS_PER_SEC) as u32;
    let d = duration_new(secs, sub);
    assert(secs as int * 1_000_000_000 + sub as int == n as int) by (nonlinear_arith)
        requires
            secs as int == n as int / 1_000_000_000,
            sub as int == n as int % 1_000_000_000,
    ;
    d
}

} // verus!

verus! {

proof fn lemma_sat_pow2_grows(e: nat)
    ensures
        sat_pow2(e) <= sat_pow2(e + 1),
{
    lemma_sat_pow2_bounds(e);
}

/// The retry delay never exceeds the cap and never shrinks from one
/// attempt to the next.
pub proof fn law_backoff_capped_and_nondecreasing(initial: int, max: int, attempt: u32)
    requires
        0 <= initial,
        attempt < u32::MAX,
    ensures
        backoff_nanos(initial, max, attempt) <= max,
        backoff_nanos(initial, max, attempt) <= backoff_nanos(initial, max, (attempt + 1) as u32),
{
    let e: nat = (if attempt == 0 { 0 } else { attempt - 1 }) as nat;
    let e2: nat = attempt as nat;
    let f1 = sat_pow2(e);
    let f2 = sat_pow2(e2);
    if attempt > 0 {
        assert(e2 == e + 1);
        lemma_sat_pow2_grows(e);
    } else {
        assert(e == 0 && e2 == 0);
    }
    assert(f1 <= f2);
    assert(initial * f1 <= initial * f2) by (nonlinear_arith)
        requires
            0 <= initial,
            f1 <= f2,
    ;
}

} // verus!
