use app_core::common::{Duration, Instant};
use app_core::uptime::{delay_end, delay_step, reload_value, try_uptime_us, DelayStep, SystSample};

const RELOAD: u32 = 4_999;
const TENMS: u32 = 9_999;

fn sample(current1: u32, current2: u32, reload_count: u32) -> SystSample {
    SystSample { current1, current2, reload_count, reload: RELOAD, ticks_per_10ms: TENMS }
}

#[test]
fn reload_value_for_five_ms() {
    assert_eq!(reload_value(5, TENMS), Some(4_999));
    assert_eq!(reload_value(0, TENMS), None);
    assert_eq!(reload_value(u32::MAX, TENMS), None);
}

#[test]
fn uptime_from_reloads_and_counter() {
    assert_eq!(try_uptime_us(sample(999, 998, 3)), Some(3 * 5_000 + 4_000));
    assert_eq!(try_uptime_us(sample(RELOAD, RELOAD, 0)), Some(0));
    assert_eq!(try_uptime_us(sample(0, 0, 1)), Some(5_000 + 4_999));
    // A reload between the two reads: the counter went up.
    assert_eq!(try_uptime_us(sample(3, 4_990, 4)), None);
}

#[test]
fn huge_uptime_saturates() {
    let s = SystSample { current1: 0, current2: 0, reload_count: u32::MAX, reload: u32::MAX, ticks_per_10ms: 0 };
    assert_eq!(try_uptime_us(s), Some(u64::MAX));
}

/// A count-down timer whose reload interrupt may fire between any two reads.
struct Timer {
    elapsed_ticks: u64,
    reload_count: u32,
    interrupt_pending: bool,
}

impl Timer {
    fn current(&self) -> u32 {
        RELOAD - (self.elapsed_ticks % (RELOAD as u64 + 1)) as u32
    }

    fn tick(&mut self, ticks: u64) {
        let before = self.elapsed_ticks / (RELOAD as u64 + 1);
        self.elapsed_ticks += ticks;
        if self.elapsed_ticks / (RELOAD as u64 + 1) > before {
            self.interrupt_pending = true;
        }
    }

    fn serve_interrupt(&mut self) {
        if self.interrupt_pending {
            self.reload_count += 1;
            self.interrupt_pending = false;
        }
    }

    fn read(&mut self, step: u64) -> u64 {
        loop {
            let current1 = self.current();
            self.tick(step);
            self.serve_interrupt();
            let current2 = self.current();
            let s = SystSample {
                current1,
                current2,
                reload_count: self.reload_count,
                reload: RELOAD,
                ticks_per_10ms: TENMS,
            };
            if let Some(us) = try_uptime_us(s) {
                return us;
            }
        }
    }
}

#[test]
fn readings_never_go_back_under_interleaved_reloads() {
    let mut t = Timer { elapsed_ticks: 0, reload_count: 0, interrupt_pending: false };
    let mut last = 0;
    for i in 0..20_000u64 {
        let us = t.read(1 + (i * 7919) % 3_000);
        assert!(us >= last, "{us} after {last}");
        last = us;
        t.tick((i * 104_729) % 2_000);
        t.serve_interrupt();
    }
    assert!(last > 0);
}

#[test]
fn delay_decisions() {
    let start = Instant::from_ticks(1_000);
    let end = delay_end(start, Duration::from_ticks(20_000)).unwrap();
    assert_eq!(end, Instant::from_ticks(21_000));
    assert_eq!(delay_end(Instant::from_ticks(u64::MAX), Duration::from_ticks(1)), None);
    assert_eq!(delay_step(end, Instant::from_ticks(1_000), 5), DelayStep::Sleep);
    assert_eq!(delay_step(end, Instant::from_ticks(16_000), 5), DelayStep::Sleep);
    assert_eq!(delay_step(end, Instant::from_ticks(16_001), 5), DelayStep::Poll);
    assert_eq!(delay_step(end, Instant::from_ticks(21_000), 5), DelayStep::Done);
    assert_eq!(delay_step(end, Instant::from_ticks(30_000), 5), DelayStep::Done);
}
