//! Throughput from two readings of a cumulative byte counter, and the
//! fixed-point units in which rates and percentages are carried.
//!
//! A rate is a number of rate units; `RATE_UNITS_PER_KB` units make one KB/s,
//! so one unit is one byte per second. A percentage is a number of percent
//! units; `PERCENT_UNITS` of them make one percent.

use vstd::prelude::*;

verus! {

/// Nanoseconds in one second.
pub const NANOS_PER_SEC: u64 = 1_000_000_000;

/// Rate units in one KB/s.
pub const RATE_UNITS_PER_KB: u64 = 1024;

/// Percent units in one percent.
pub const PERCENT_UNITS: u32 = 1000;

/// Percent units in one hundred percent.
pub const FULL_SCALE: u32 = 100_000;

/// The rate that fills a network chart to its top: 1000 KB/s, in rate units.
pub const NETWORK_CHART_TOP: u64 = 1_024_000;

/// Growth of a cumulative counter between two readings; a counter that went
/// backwards (an interface reset) counts as no growth.
pub open spec fn counter_delta(current: u64, previous: u64) -> nat {
    if current >= previous {
        (current - previous) as nat
    } else {
        0
    }
}

/// Throughput in rate units: the counter's growth divided by the elapsed
/// seconds, rounded down; zero when no time has passed.
pub open spec fn rate_of(current: u64, previous: u64, elapsed_nanos: u64) -> nat {
    if elapsed_nanos == 0 {
        0
    } else {
        counter_delta(current, previous) * NANOS_PER_SEC as nat / elapsed_nanos as nat
    }
}

/// `part` of `whole` in percent units, rounded down; `part` counts as `whole`
/// where it exceeds it, and everything is 0 percent of nothing.
pub open spec fn percent_of_spec(part: u64, whole: u64) -> nat {
    if whole == 0 {
        0
    } else if part >= whole {
        FULL_SCALE as nat
    } else {
        part as nat * FULL_SCALE as nat / whole as nat
    }
}

/// Height of a rate on a chart whose top is `NETWORK_CHART_TOP`, in percent
/// units: a tenth of a percent for each KB/s, capped at full scale.
pub open spec fn chart_height_spec(rate: nat) -> nat {
    let top = NETWORK_CHART_TOP as nat;
    if rate >= top {
        FULL_SCALE as nat
    } else {
        rate * FULL_SCALE as nat / top
    }
}

/// Converts two readings of a cumulative byte counter, taken `elapsed_nanos`
/// apart, into a throughput in rate units. No time elapsed gives 0, and so
/// does a counter that did not grow or went backwards.
pub fn compute_rate(current: u64, previous: u64, elapsed_nanos: u64) -> (rate: u128)
    ensures
        rate == rate_of(current, previous, elapsed_nanos),
{
    if elapsed_nanos == 0 {
        return 0;
    }
    let delta: u64 = current.saturating_sub(previous);
    assert(delta as nat * NANOS_PER_SEC as nat <= u64::MAX as nat * NANOS_PER_SEC as nat)
        by (nonlinear_arith)
        requires
            delta <= u64::MAX,
    ;
    (delta as u128 * NANOS_PER_SEC as u128) / (elapsed_nanos as u128)
}

/// `part` of `whole` in percent units, between 0 and `FULL_SCALE`.
pub fn percent_of(part: u64, whole: u64) -> (p: u32)
    ensures
        p == percent_of_spec(part, whole),
        p <= FULL_SCALE,
{
    if whole == 0 {
        0
    } else if part >= whole {
        FULL_SCALE
    } else {
        assert(part as nat * FULL_SCALE as nat <= u64::MAX as nat * 100_000) by (nonlinear_arith)
            requires
                part <= u64::MAX,
                FULL_SCALE == 100_000,
        ;
        let scaled: u128 = part as u128 * FULL_SCALE as u128;
        assert(part as nat * FULL_SCALE as nat / whole as nat <= FULL_SCALE as nat)
            by (nonlinear_arith)
            requires
                part < whole,
                whole > 0,
        ;
        (scaled / whole as u128) as u32
    }
}

/// Height at which a chart with top `NETWORK_CHART_TOP` shows `rate`, in
/// percent units between 0 and `FULL_SCALE`.
pub fn chart_height(rate: u128) -> (h: u32)
    ensures
        h == chart_height_spec(rate as nat),
        h <= FULL_SCALE,
{
    let top: u128 = NETWORK_CHART_TOP as u128;
    if rate >= top {
        FULL_SCALE
    } else {
        assert(rate as nat * FULL_SCALE as nat <= 1_024_000 * 100_000) by (nonlinear_arith)
            requires
                rate < 1_024_000,
                FULL_SCALE == 100_000,
        ;
        let scaled: u128 = rate * FULL_SCALE as u128;
        assert(rate as nat * 100_000 / 1_024_000 <= 100_000) by (nonlinear_arith)
            requires
                rate < 1_024_000,
        ;
        (scaled / top) as u32
    }
}

/// Height at which a chart shows the two rates `a` and `b` together.
pub fn combined_chart_height(a: u128, b: u128) -> (h: u32)
    ensures
        h == chart_height_spec(a as nat + b as nat),
        h <= FULL_SCALE,
{
    chart_height(a.saturating_add(b))
}

/// A rate is never negative, and it is zero whenever the counter did not
/// advance or no time elapsed.
pub proof fn lemma_rate_non_negative(current: u64, previous: u64, elapsed_nanos: u64)
    ensures
        rate_of(current, previous, elapsed_nanos) >= 0,
        current <= previous ==> rate_of(current, previous, elapsed_nanos) == 0,
        elapsed_nanos == 0 ==> rate_of(current, previous, elapsed_nanos) == 0,
{
    if elapsed_nanos != 0 && current <= previous {
        assert(counter_delta(current, previous) == 0);
        assert(0 * NANOS_PER_SEC as nat / elapsed_nanos as nat == 0) by (nonlinear_arith)
            requires
                elapsed_nanos > 0,
        ;
    }
}

/// A counter that starts at zero and reaches 1024 bytes for every second
/// that elapsed shows a rate of exactly one KB/s.
pub proof fn lemma_rate_scale(current: u64, elapsed_nanos: u64)
    requires
        elapsed_nanos > 0,
        current * NANOS_PER_SEC == 1024 * elapsed_nanos,
    ensures
        rate_of(current, 0, elapsed_nanos) == RATE_UNITS_PER_KB,
{
    let e = elapsed_nanos as nat;
    assert((1024 * e) / e == 1024) by (nonlinear_arith)
        requires
            e > 0,
    ;
}

} // verus!
