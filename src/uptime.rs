//! The monotonic clock's arithmetic: microseconds since boot from a
//! count-down timer and the number of times it has reloaded, read without a
//! torn pair, and the decisions of a blocking delay.
use vstd::prelude::*;
use crate::common::{Duration, Instant};

verus! {

/// One attempt at reading the timer. `current1` is the counter read first;
/// `current2`, the counter, `reload_count`, `reload` and `ticks_per_10ms` are
/// read together with interrupts masked.
#[derive(PartialEq, Eq, Structural, Copy, Clone, Debug)]
pub struct SystSample {
    /// The counter, read before interrupts were masked.
    pub current1: u32,
    /// The counter, read with interrupts masked.
    pub current2: u32,
    /// How many times the counter has run out and reloaded.
    pub reload_count: u32,
    /// The value the counter reloads with.
    pub reload: u32,
    /// The calibration value: timer ticks per 10 ms, less one.
    pub ticks_per_10ms: u32,
}

/// No reload fell between the two counter reads: the counter only went down.
pub open spec fn consistent(s: SystSample) -> bool {
    s.current2 <= s.current1
}

/// The length of one reload period in microseconds.
pub open spec fn reload_period_us(reload: u32, ticks_per_10ms: u32) -> int {
    10_000 * (reload as int + 1) / (ticks_per_10ms as int + 1)
}

/// The microseconds since boot that the sample shows: whole reload periods,
/// plus the part of the current one that the counter has counted down.
pub open spec fn elapsed_us(s: SystSample) -> int {
    s.reload_count as int * reload_period_us(s.reload, s.ticks_per_10ms) + 10_000 * (
    s.reload as int - s.current1 as int) / (s.ticks_per_10ms as int + 1)
}

/// `x`, or the largest `u64` where `x` is larger.
pub open spec fn capped(x: int) -> int {
    if x > u64::MAX {
        u64::MAX as int
    } else {
        x
    }
}

/// The microseconds since boot from one attempt at reading the timer (see
/// `elapsed_us`); `None` where the counter reloaded between the two reads, so
/// that the pair may be torn and the attempt must be made again. A time past
/// the `u64` range reads as the largest `u64`.
pub fn try_uptime_us(s: SystSample) -> (r: Option<u64>)
    requires
        s.current1 <= s.reload,
    ensures
        consistent(s) ==> r == Some(capped(elapsed_us(s)) as u64),
        !consistent(s) ==> r is None,
{
    if s.current2 <= s.current1 {
        let tp = s.ticks_per_10ms as u64 + 1;
        let period_us = 10_000 * (s.reload as u64 + 1) / tp;
        let base_us = match (s.reload_count as u64).checked_mul(period_us) {
            Some(us) => us,
            None => u64::MAX,
        };
        let current_us = 10_000 * (s.reload - s.current1) as u64 / tp;
        Some(base_us.saturating_add(current_us))
    } else {
        None
    }
}

/// The reload value for a reload period of `period_ms` milliseconds: that many
/// timer ticks, less one. `None` where the tick count is zero or past `u32`.
pub fn reload_value(period_ms: u32, ticks_per_10ms: u32) -> (r: Option<u32>)
    ensures
        ({
            let ticks = period_ms as int * (ticks_per_10ms as int + 1);
            if ticks <= u32::MAX && ticks / 10 > 0 {
                r == Some((ticks / 10 - 1) as u32)
            } else {
                r is None
            }
        }),
{
    let tp = ticks_per_10ms as u64 + 1;
    assert(period_ms as u64 * tp <= u32::MAX as int * (u32::MAX as int + 1)) by (nonlinear_arith)
        requires
            tp <= u32::MAX as int + 1,
            period_ms <= u32::MAX,
    ;
    let ticks = period_ms as u64 * tp;
    if ticks <= u32::MAX as u64 && ticks / 10 > 0 {
        Some((ticks / 10 - 1) as u32)
    } else {
        None
    }
}

/// What a blocking delay does next.
#[derive(PartialEq, Eq, Structural, Copy, Clone, Debug)]
pub enum DelayStep {
    /// The end is reached.
    Done,
    /// Wait for an interrupt: the end is at least one reload period away.
    Sleep,
    /// Read the clock again.
    Poll,
}

/// The end of a delay of `delay` from `start`; `None` where it is past the
/// clock's range, which ends the device's valid schedule.
pub fn delay_end(start: Instant, delay: Duration) -> (r: Option<Instant>)
    ensures
        start@ + delay@ <= u64::MAX ==> (r matches Some(t) && t@ == start@ + delay@),
        start@ + delay@ > u64::MAX ==> r is None,
{
    start.checked_add_duration(delay)
}

/// The next step of a delay that ends at `end`, at `now`: done once `now` has
/// reached `end`; sleep while at least `reload_period_ms` whole milliseconds
/// are left; poll otherwise.
pub fn delay_step(end: Instant, now: Instant, reload_period_ms: u32) -> (r: DelayStep)
    ensures
        now@ >= end@ ==> r == DelayStep::Done,
        now@ < end@ && (end@ - now@) / 1000 >= reload_period_ms ==> r == DelayStep::Sleep,
        now@ < end@ && (end@ - now@) / 1000 < reload_period_ms ==> r == DelayStep::Poll,
{
    match end.checked_duration_since(now) {
        Some(left) => if left.is_zero() {
            DelayStep::Done
        } else if left.to_millis() >= reload_period_ms as u64 {
            DelayStep::Sleep
        } else {
            DelayStep::Poll
        },
        None => DelayStep::Done,
    }
}

/// Readings never go back: of two consistent samples under one timer setting,
/// the later one (more reloads, or as many and a counter no higher) shows no
/// fewer microseconds, whenever the reload interrupt ran between them.
pub proof fn lemma_uptime_monotonic(a: SystSample, b: SystSample)
    requires
        consistent(a),
        consistent(b),
        a.reload == b.reload,
        a.ticks_per_10ms == b.ticks_per_10ms,
        a.current1 <= a.reload,
        b.current1 <= b.reload,
        a.reload_count < b.reload_count || (a.reload_count == b.reload_count && b.current1
            <= a.current1),
    ensures
        elapsed_us(a) <= elapsed_us(b),
        capped(elapsed_us(a)) <= capped(elapsed_us(b)),
{
    let tp = a.ticks_per_10ms as int + 1;
    let p = reload_period_us(a.reload, a.ticks_per_10ms);
    let fa = 10_000 * (a.reload as int - a.current1 as int) / tp;
    let fb = 10_000 * (b.reload as int - b.current1 as int) / tp;
    assert(0 <= fb) by (nonlinear_arith)
        requires
            fb == 10_000 * (b.reload as int - b.current1 as int) / tp,
            b.current1 <= b.reload,
            tp > 0,
    ;
    if a.reload_count < b.reload_count {
        assert(fa <= p) by (nonlinear_arith)
            requires
                fa == 10_000 * (a.reload as int - a.current1 as int) / tp,
                p == 10_000 * (a.reload as int + 1) / tp,
                tp > 0,
        ;
        assert(a.reload_count as int * p + p <= b.reload_count as int * p) by (nonlinear_arith)
            requires
                a.reload_count < b.reload_count,
                p >= 0,
        ;
        assert(p >= 0) by (nonlinear_arith)
            requires
                p == 10_000 * (a.reload as int + 1) / tp,
                tp > 0,
        ;
    } else {
        assert(fa <= fb) by (nonlinear_arith)
            requires
                fa == 10_000 * (a.reload as int - a.current1 as int) / tp,
                fb == 10_000 * (b.reload as int - b.current1 as int) / tp,
                a.reload == b.reload,
                b.current1 <= a.current1,
                tp > 0,
        ;
    }
}

} // verus!
