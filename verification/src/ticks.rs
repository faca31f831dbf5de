//! Counter ticks and nanoseconds.
//!
//! The main counter, the comparators and the host clock are 64-bit words that
//! wrap around, so all arithmetic on them is modulo 2^64.

use vstd::prelude::*;

verus! {

/// Length of a tick of the main counter, in nanoseconds.
pub const HPET_CLK_PERIOD: u64 = 10;

/// Femtoseconds in a nanosecond.
pub const FS_PER_NS: u64 = 1000000;

/// The 64-bit word that `x` wraps around to.
pub open spec fn wrap64(x: int) -> u64 {
    (x % 0x1_0000_0000_0000_0000) as u64
}

/// The next tick after `cur_tick` whose low 32 bits are zero.
pub open spec fn next_wrap(cur_tick: u64) -> u64 {
    wrap64((cur_tick as int / 0x1_0000_0000 + 1) * 0x1_0000_0000)
}

/// `a` is later than `b`, as far as a signed 64-bit distance can tell.
pub open spec fn time_after(a: u64, b: u64) -> bool {
    wrap64(b - a) >= 0x8000_0000_0000_0000
}

/// `start` plus `k` periods.
pub open spec fn after_periods(start: u64, period: u64, k: nat) -> u64 {
    wrap64(start + k * period)
}

/// `c` is the first of `start`, `start + period`, `start + 2 * period`, ...
/// that does not lie before `cur_tick`.
pub open spec fn is_first_due(start: u64, period: u64, cur_tick: u64, c: u64) -> bool {
    exists|k: nat| #[trigger] is_due_after(start, period, cur_tick, k, c)
}

/// `c` is `k` periods past `start`, does not lie before `cur_tick`, and fewer
/// periods would not have been enough.
pub open spec fn is_due_after(start: u64, period: u64, cur_tick: u64, k: nat, c: u64) -> bool {
    &&& c == after_periods(start, period, k)
    &&& !time_after(cur_tick, c)
    &&& forall|j: nat| j < k ==> time_after(cur_tick, #[trigger] after_periods(start, period, j))
}

/// The next tick at which the low half of the counter wraps around.
pub fn hpet_next_wrap(cur_tick: u64) -> (r: u64)
    ensures
        r == next_wrap(cur_tick),
{
    assert((cur_tick | 0xffffffff) == (cur_tick / 0x1_0000_0000u64) * 0x1_0000_0000u64 + 0xffffffff)
        by (bit_vector);
    (cur_tick | 0xffffffff).wrapping_add(1)
}

/// Whether `a` is later than `b`.
pub fn hpet_time_after(a: u64, b: u64) -> (r: bool)
    ensures
        r == time_after(a, b),
{
    let d: u64 = b.wrapping_sub(a);
    assert(((d as i64) < 0) == (d >= 0x8000_0000_0000_0000u64)) by (bit_vector);
    (d as i64) < 0
}

/// Nanoseconds that `value` ticks take.
pub fn ticks_to_ns(value: u64) -> (r: u64)
    ensures
        r == wrap64(value * HPET_CLK_PERIOD),
{
    value.wrapping_mul(HPET_CLK_PERIOD)
}

/// Whole ticks in `value` nanoseconds.
pub fn ns_to_ticks(value: u64) -> (r: u64)
    ensures
        r == value / HPET_CLK_PERIOD,
{
    value / HPET_CLK_PERIOD
}

/// How far `c` has to go before it no longer lies before `cur_tick`. A period of
/// 2^63 or more moves `c` backwards, away from `cur_tick`, until the signed
/// distance turns over.
spec fn catch_up_measure(period: u64, cur_tick: u64, c: u64) -> int {
    if !time_after(cur_tick, c) {
        0
    } else if period < 0x8000_0000_0000_0000 {
        0x1_0000_0000_0000_0000 - wrap64(c - cur_tick)
    } else {
        wrap64(c - cur_tick) as int
    }
}

proof fn lemma_measure_decreases(prev: u64, period: u64, cur_tick: u64, c: u64)
    requires
        period != 0,
        time_after(cur_tick, prev),
        c == wrap64(prev + period),
    ensures
        0 <= catch_up_measure(period, cur_tick, c) < catch_up_measure(period, cur_tick, prev),
{
    let d = wrap64(prev - cur_tick);
    assert(wrap64(c - cur_tick) == wrap64(d + period));
    if d + period < 0x1_0000_0000_0000_0000 {
        assert(wrap64(d + period) == d + period);
    } else {
        assert(wrap64(d + period) == d + period - 0x1_0000_0000_0000_0000);
    }
}

/// Moves `start` forward by whole periods until it no longer lies before
/// `cur_tick`.
pub fn catch_up(start: u64, period: u64, cur_tick: u64) -> (r: u64)
    requires
        period != 0,
    ensures
        is_first_due(start, period, cur_tick, r),
{
    let mut c: u64 = start;
    let ghost mut k: nat = 0;
    assert(0 * period == 0) by (nonlinear_arith);
    while hpet_time_after(cur_tick, c)
        invariant
            period != 0,
            c == after_periods(start, period, k),
            forall|j: nat|
                j < k ==> time_after(cur_tick, #[trigger] after_periods(start, period, j)),
        decreases catch_up_measure(period, cur_tick, c),
    {
        assert((k + 1) * period == k * period + period) by (nonlinear_arith);
        c = c.wrapping_add(period);
        proof {
            lemma_wrap_step(start + k * period, period);
            lemma_measure_decreases(after_periods(start, period, k), period, cur_tick, c);
            k = k + 1;
        }
    }
    assert(is_due_after(start, period, cur_tick, k, c));
    c
}

/// Whole periods never overshoot: a start that lies before `cur_tick` is moved
/// to a tick less than one period after it.
pub proof fn lemma_first_due_within_period(start: u64, period: u64, cur_tick: u64, c: u64)
    requires
        period != 0,
        is_first_due(start, period, cur_tick, c),
        time_after(cur_tick, start),
    ensures
        wrap64(c - cur_tick) < period,
{
    let k = choose|k: nat| #[trigger] is_due_after(start, period, cur_tick, k, c);
    assert(0 * period == 0) by (nonlinear_arith);
    assert(k > 0);
    let j = (k - 1) as nat;
    assert(time_after(cur_tick, after_periods(start, period, j)));
    assert(k * period == j * period + period) by (nonlinear_arith)
        requires
            k == j + 1,
    ;
    lemma_wrap_step(start + j * period, period);
    lemma_last_step(after_periods(start, period, j), period, cur_tick, c);
}

/// One step from before `cur_tick` to a tick that does not lie before it ends
/// within that step after it.
proof fn lemma_last_step(prev: u64, period: u64, cur_tick: u64, c: u64)
    requires
        time_after(cur_tick, prev),
        !time_after(cur_tick, c),
        c == wrap64(prev + period),
    ensures
        wrap64(c - cur_tick) < period,
{
}

proof fn lemma_wrap_step(x: int, y: u64)
    ensures
        wrap64(x + y) == wrap64(wrap64(x) + y),
{
}

/// There is at most one first due tick.
pub proof fn lemma_first_due_unique(start: u64, period: u64, cur_tick: u64, a: u64, b: u64)
    requires
        is_first_due(start, period, cur_tick, a),
        is_first_due(start, period, cur_tick, b),
    ensures
        a == b,
{
    let k = choose|k: nat| #[trigger] is_due_after(start, period, cur_tick, k, a);
    let m = choose|m: nat| #[trigger] is_due_after(start, period, cur_tick, m, b);
    if k < m {
        assert(time_after(cur_tick, after_periods(start, period, k)));
    } else if m < k {
        assert(time_after(cur_tick, after_periods(start, period, m)));
    }
}

/// A start that does not lie before `cur_tick` stays where it is.
pub proof fn lemma_first_due_not_late(start: u64, period: u64, cur_tick: u64, c: u64)
    requires
        is_first_due(start, period, cur_tick, c),
        !time_after(cur_tick, start),
    ensures
        c == start,
{
    assert(0 * period == 0) by (nonlinear_arith);
    assert(after_periods(start, period, 0) == start);
    assert(is_due_after(start, period, cur_tick, 0, start));
    lemma_first_due_unique(start, period, cur_tick, c, start);
}

/// Between words that are not too far apart, `hpet_time_after` is the order of
/// the numbers.
pub proof fn lemma_time_after_is_order(a: u64, b: u64)
    requires
        a - b <= 0x8000_0000_0000_0000,
        b - a < 0x8000_0000_0000_0000,
    ensures
        time_after(a, b) == (a > b),
{
}

/// The next wrap is the least multiple of 2^32 after the current tick.
pub proof fn lemma_next_wrap_is_least(cur_tick: u64, m: u64)
    requires
        cur_tick < 0xffff_ffff_0000_0000,
    ensures
        next_wrap(cur_tick) % 0x1_0000_0000 == 0,
        next_wrap(cur_tick) > cur_tick,
        m > cur_tick && m % 0x1_0000_0000 == 0 ==> m >= next_wrap(cur_tick),
{
}

/// Ticks turned into nanoseconds and back are the same ticks, as long as the
/// nanoseconds fit into 64 bits.
pub proof fn lemma_ticks_round_trip(value: u64)
    requires
        value * HPET_CLK_PERIOD <= u64::MAX,
    ensures
        wrap64(value * HPET_CLK_PERIOD) / HPET_CLK_PERIOD == value,
{
}

} // verus!
