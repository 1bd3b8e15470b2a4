//! Rates and percentages computed from two samples of cumulative counters.
//!
//! Percentages are fixed point in hundredths of a percent (`10000` is 100%),
//! elapsed time is in milliseconds and rates are per second. Every function
//! here is total: degenerate inputs give 0, never a negative value or a panic.
use vstd::arithmetic::div_mod::{lemma_div_by_multiple, lemma_div_is_ordered};
use vstd::arithmetic::mul::lemma_mul_inequality;
use vstd::prelude::*;

verus! {

/// A whole, in hundredths of a percent.
pub const FULL_PERCENT: u64 = 10000;

/// Milliseconds in one second.
pub const MILLIS_PER_SEC: u64 = 1000;

/// How far a cumulative counter moved; a counter that went back (a wrap or a
/// reset) moved by nothing.
pub open spec fn counter_delta(curr: u64, prev: u64) -> nat {
    if curr >= prev {
        (curr - prev) as nat
    } else {
        0
    }
}

pub open spec fn min_int(a: int, b: int) -> int {
    if a <= b {
        a
    } else {
        b
    }
}

/// Busy share of elapsed ticks, clamped to a whole, in hundredths of a percent.
pub open spec fn usage_percent(
    prev_work: u64,
    prev_total: u64,
    curr_work: u64,
    curr_total: u64,
) -> int {
    let dt = counter_delta(curr_total, prev_total);
    let dw = counter_delta(curr_work, prev_work);
    if dt == 0 {
        0
    } else {
        min_int(dw as int, dt as int) * FULL_PERCENT / dt as int
    }
}

/// Counter movement per second over `elapsed_ms`, saturated to 64 bits.
pub open spec fn per_second(curr: u64, prev: u64, elapsed_ms: u64) -> int {
    if elapsed_ms == 0 {
        0
    } else {
        min_int(counter_delta(curr, prev) * MILLIS_PER_SEC / elapsed_ms as int, u64::MAX as int)
    }
}

/// `part` as a share of `whole`, in hundredths of a percent, saturated to 64 bits.
pub open spec fn share_percent(part: int, whole: int) -> int {
    if whole <= 0 {
        0
    } else {
        min_int(part * FULL_PERCENT / whole, u64::MAX as int)
    }
}

pub fn saturating_delta(curr: u64, prev: u64) -> (r: u64)
    ensures
        r == counter_delta(curr, prev),
{
    if curr >= prev {
        curr - prev
    } else {
        0
    }
}

/// CPU usage between two cumulative (work, total) tick samples.
pub fn cpu_usage_percent(prev_work: u64, prev_total: u64, curr_work: u64, curr_total: u64) -> (r: u64)
    ensures
        r == usage_percent(prev_work, prev_total, curr_work, curr_total),
        r <= FULL_PERCENT,
{
    let dt = saturating_delta(curr_total, prev_total);
    let dw = saturating_delta(curr_work, prev_work);
    if dt == 0 {
        return 0;
    }
    let busy: u64 = if dw <= dt {
        dw
    } else {
        dt
    };
    proof {
        lemma_mul_inequality(busy as int, dt as int, FULL_PERCENT as int);
        lemma_div_is_ordered(busy as int * FULL_PERCENT, dt as int * FULL_PERCENT, dt as int);
        lemma_div_by_multiple(FULL_PERCENT as int, dt as int);
        assert(dt as int * FULL_PERCENT == FULL_PERCENT as int * dt as int) by (nonlinear_arith);
    }
    let q: u128 = (busy as u128 * 10000) / dt as u128;
    q as u64
}

/// Bytes (or any unit) per second between two cumulative samples taken
/// `elapsed_ms` apart.
pub fn rate_per_second(curr: u64, prev: u64, elapsed_ms: u64) -> (r: u64)
    ensures
        r == per_second(curr, prev, elapsed_ms),
{
    if elapsed_ms == 0 {
        return 0;
    }
    let d = saturating_delta(curr, prev);
    let q: u128 = (d as u128 * 1000) / elapsed_ms as u128;
    if q > u64::MAX as u128 {
        u64::MAX
    } else {
        q as u64
    }
}

/// `part` as a share of `whole`, in hundredths of a percent; 0 when `whole` is 0.
pub fn percent_of(part: u64, whole: u64) -> (r: u64)
    ensures
        r == share_percent(part as int, whole as int),
{
    if whole == 0 {
        return 0;
    }
    let q: u128 = (part as u128 * 10000) / whole as u128;
    if q > u64::MAX as u128 {
        u64::MAX
    } else {
        q as u64
    }
}

/// `part * factor` as a share of `whole`, in hundredths of a percent; 0 when
/// `whole` is 0.
pub fn scaled_percent_of(part: u64, factor: u32, whole: u64) -> (r: u64)
    ensures
        r == share_percent(part as int * factor as int, whole as int),
{
    if whole == 0 {
        return 0;
    }
    proof {
        lemma_mul_inequality(part as int, u64::MAX as int, factor as int);
        lemma_mul_inequality(factor as int, u32::MAX as int, u64::MAX as int);
        assert(part as int * factor as int <= u64::MAX as int * u32::MAX as int) by (nonlinear_arith)
            requires
                part as int * factor as int <= u64::MAX as int * factor as int,
                factor as int * u64::MAX as int <= u32::MAX as int * u64::MAX as int,
        ;
    }
    let scaled: u128 = part as u128 * factor as u128;
    let q: u128 = (scaled * 10000) / whole as u128;
    if q > u64::MAX as u128 {
        u64::MAX
    } else {
        q as u64
    }
}

/// `bytes` as a share of `total_kib` kibibytes, in hundredths of a percent;
/// 0 when the total is 0.
pub fn kib_share_percent(bytes: u64, total_kib: u64) -> (r: u64)
    ensures
        r == share_percent(bytes as int, total_kib as int * 1024),
{
    if total_kib == 0 {
        return 0;
    }
    let q: u128 = (bytes as u128 * 10000) / (total_kib as u128 * 1024);
    if q > u64::MAX as u128 {
        u64::MAX
    } else {
        q as u64
    }
}

/// Every rate and usage is a non-negative 64-bit value, and a CPU usage is
/// at most a whole.
pub proof fn lemma_rates_in_range(
    prev_work: u64,
    prev_total: u64,
    curr_work: u64,
    curr_total: u64,
    curr: u64,
    prev: u64,
    elapsed_ms: u64,
)
    ensures
        0 <= usage_percent(prev_work, prev_total, curr_work, curr_total) <= FULL_PERCENT,
        0 <= per_second(curr, prev, elapsed_ms) <= u64::MAX,
{
    let dt = counter_delta(curr_total, prev_total);
    let dw = counter_delta(curr_work, prev_work);
    if dt != 0 {
        let busy = min_int(dw as int, dt as int);
        lemma_mul_inequality(busy, dt as int, FULL_PERCENT as int);
        lemma_div_is_ordered(busy * FULL_PERCENT, dt as int * FULL_PERCENT, dt as int);
        lemma_div_by_multiple(FULL_PERCENT as int, dt as int);
        assert(dt as int * FULL_PERCENT == FULL_PERCENT as int * dt as int) by (nonlinear_arith);
        assert(busy * FULL_PERCENT >= 0) by (nonlinear_arith)
            requires
                busy >= 0,
        ;
        assert(busy * FULL_PERCENT / dt as int >= 0) by (nonlinear_arith)
            requires
                busy * FULL_PERCENT >= 0,
                dt > 0,
        ;
    }
    if elapsed_ms != 0 {
        let d = counter_delta(curr, prev) * MILLIS_PER_SEC;
        assert(d / elapsed_ms as int >= 0) by (nonlinear_arith)
            requires
                d >= 0,
                elapsed_ms > 0,
        ;
    }
}

/// With no time elapsed every rate is 0, and with no ticks elapsed the CPU
/// usage is 0.
pub proof fn lemma_zero_elapsed(curr: u64, prev: u64, prev_work: u64, curr_work: u64, total: u64)
    ensures
        per_second(curr, prev, 0) == 0,
        usage_percent(prev_work, total, curr_work, total) == 0,
{
}

/// A counter that went back (a wrap or a reset) moved by nothing: no rate, and
/// no CPU usage from a work counter that went back.
pub proof fn lemma_counter_reset(
    curr: u64,
    prev: u64,
    elapsed_ms: u64,
    prev_work: u64,
    curr_work: u64,
    prev_total: u64,
    curr_total: u64,
)
    requires
        curr < prev,
        curr_work < prev_work,
    ensures
        counter_delta(curr, prev) == 0,
        per_second(curr, prev, elapsed_ms) == 0,
        usage_percent(prev_work, prev_total, curr_work, curr_total) == 0,
{
}

} // verus!
