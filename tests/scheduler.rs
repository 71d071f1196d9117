use core::cmp::Ordering;
use app_core::common::{Duration, Instant, InstantOverflow};
use app_core::scheduler::{SchedulePoint, Scheduler};
use app_core::task::{NextRun, Task};

struct Recorder {
    id: usize,
    next: NextRun,
}

impl Task<Vec<usize>, usize> for Recorder {
    fn run(&mut self, log: &mut Vec<usize>) -> (Option<usize>, NextRun) {
        log.push(self.id);
        (Some(self.id), self.next)
    }
}

fn recorders(nexts: &[NextRun]) -> Scheduler<Recorder> {
    let tasks = nexts
        .iter()
        .enumerate()
        .map(|(id, next)| Recorder { id, next: *next })
        .collect::<Vec<_>>();
    Scheduler::new(tasks)
}

fn after(ticks: u64) -> NextRun {
    NextRun::After(Duration::from_ticks(ticks))
}

fn at(ticks: u64) -> Instant {
    Instant::from_ticks(ticks)
}

#[test]
fn in_order_tasks_rotate_in_registration_order() {
    let mut s = recorders(&[NextRun::InOrder; 3]);
    let mut log = Vec::new();
    for _ in 0..7 {
        assert!(s.run(at(0), &mut log).unwrap().is_some());
    }
    assert_eq!(log, vec![0, 1, 2, 0, 1, 2, 0]);
    assert_eq!(s.next_in_order(), 1);
}

#[test]
fn new_registers_all_in_order() {
    let s = recorders(&[after(5), NextRun::InOrder]);
    assert_eq!(s.len(), 2);
    assert_eq!(s.schedule_point(0), SchedulePoint::InOrder);
    assert_eq!(s.schedule_point(1), SchedulePoint::InOrder);
    assert_eq!(s.next_in_order(), 0);
    let empty: Scheduler<Recorder> = Scheduler::default();
    assert_eq!(empty.len(), 0);
}

#[test]
fn earliest_due_runs_first_ties_by_registration() {
    let mut s = recorders(&[after(30), after(10), after(10)]);
    let mut log = Vec::new();
    for _ in 0..3 {
        s.run(at(0), &mut log).unwrap();
    }
    assert_eq!(log, vec![0, 1, 2]);
    assert_eq!(s.schedule_point(0), SchedulePoint::At(at(30)));
    assert_eq!(s.schedule_point(1), SchedulePoint::At(at(10)));
    log.clear();
    for _ in 0..3 {
        s.run(at(100), &mut log).unwrap();
    }
    assert_eq!(log, vec![1, 2, 0]);
}

#[test]
fn due_timed_task_beats_in_order_task() {
    let mut s = recorders(&[NextRun::InOrder, after(50)]);
    let mut log = Vec::new();
    s.run(at(0), &mut log).unwrap();
    s.run(at(0), &mut log).unwrap();
    assert_eq!(log, vec![0, 1]);
    // Not yet due: the in-order task runs.
    s.run(at(49), &mut log).unwrap();
    assert_eq!(log, vec![0, 1, 0]);
    // Due: the timed task runs, and the cursor stays.
    let cursor = s.next_in_order();
    s.run(at(50), &mut log).unwrap();
    assert_eq!(log, vec![0, 1, 0, 1]);
    assert_eq!(s.next_in_order(), cursor);
}

#[test]
fn after_counts_from_the_call_time() {
    let mut s = recorders(&[after(1_000)]);
    let mut log = Vec::new();
    s.run(at(12_345), &mut log).unwrap();
    assert_eq!(s.schedule_point(0), SchedulePoint::At(at(13_345)));
    assert_eq!(s.run(at(13_344), &mut log), Ok(None));
    assert_eq!(s.run(at(13_345), &mut log), Ok(Some(0)));
    assert_eq!(s.schedule_point(0), SchedulePoint::At(at(14_345)));
}

#[test]
fn nothing_due_runs_nothing_and_moves_the_cursor() {
    let mut s = recorders(&[after(100), after(100)]);
    let mut log = Vec::new();
    s.run(at(0), &mut log).unwrap();
    s.run(at(0), &mut log).unwrap();
    assert_eq!(s.next_in_order(), 0);
    assert_eq!(s.run(at(10), &mut log), Ok(None));
    assert_eq!(s.next_in_order(), 1);
    assert_eq!(s.run(at(10), &mut log), Ok(None));
    assert_eq!(s.next_in_order(), 0);
    assert_eq!(log, vec![0, 1]);
}

#[test]
fn instant_past_the_range_is_an_error() {
    let mut s = recorders(&[after(10)]);
    let mut log = Vec::new();
    assert_eq!(s.run(at(u64::MAX - 5), &mut log), Err(InstantOverflow));
    assert_eq!(log, vec![0]);
    assert_eq!(s.schedule_point(0), SchedulePoint::InOrder);
}

#[test]
fn cmp_instant_orders_timed_points() {
    let a = SchedulePoint::At(at(1));
    let b = SchedulePoint::At(at(2));
    assert_eq!(a.cmp_instant(b), Some(Ordering::Less));
    assert_eq!(b.cmp_instant(a), Some(Ordering::Greater));
    assert_eq!(a.cmp_instant(a), Some(Ordering::Equal));
    assert_eq!(a.cmp_instant(SchedulePoint::InOrder), None);
    assert_eq!(SchedulePoint::InOrder.cmp_instant(a), None);
}

#[test]
fn time_arithmetic_is_checked() {
    assert_eq!(at(5).checked_add_duration(Duration::from_ticks(7)), Some(at(12)));
    assert_eq!(at(u64::MAX).checked_add_duration(Duration::from_ticks(1)), None);
    assert_eq!(at(12).checked_duration_since(at(5)), Some(Duration::from_ticks(7)));
    assert_eq!(at(5).checked_duration_since(at(12)), None);
    assert_eq!(Duration::from_ticks(2_999).to_millis(), 2);
    assert!(Duration::from_ticks(0).is_zero());
    assert_eq!(
        Duration::from_ticks(u64::MAX).checked_add(Duration::from_ticks(1)),
        None
    );
    assert_eq!(
        Duration::from_ticks(3).checked_add(Duration::from_ticks(4)),
        Some(Duration::from_ticks(7))
    );
}
