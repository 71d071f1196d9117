//! A cooperative scheduler over a fixed set of tasks: one task per call,
//! timed tasks by earliest deadline, the others in round-robin order.
use vstd::prelude::*;
use vstd::arithmetic::div_mod::{lemma_mod_self_0, lemma_small_mod, lemma_add_mod_noop};
use core::cmp::Ordering;
use crate::common::{Duration, Instant, InstantOverflow};
use crate::task::{NextRun, Task};

verus! {

/// When a task may run next.
#[derive(PartialEq, Eq, Structural, Copy, Clone, Debug)]
pub enum SchedulePoint {
    /// On its round-robin turn.
    InOrder,
    /// Once the clock has reached this instant.
    At(Instant),
}

/// Whether a task with this point may run at `now`.
pub open spec fn due(p: SchedulePoint, now: Instant) -> bool {
    p matches SchedulePoint::At(t) && t@ <= now@
}

/// Task `i` is timed, none has an earlier instant, and none before it in
/// registration order has the same one.
pub open spec fn earliest(pts: Seq<SchedulePoint>, i: int) -> bool {
    &&& 0 <= i < pts.len()
    &&& pts[i] is At
    &&& forall|j: int|
        0 <= j < pts.len() && (#[trigger] pts[j]) is At ==> pts[i]->At_0@ <= pts[j]->At_0@
    &&& forall|j: int|
        0 <= j < i && (#[trigger] pts[j]) is At ==> pts[i]->At_0@ < pts[j]->At_0@
}

/// Position `o` steps after `c` on a ring of `n`.
pub open spec fn rot(c: int, o: int, n: int) -> int {
    if c + o < n {
        c + o
    } else {
        c + o - n
    }
}

/// The number of steps from `c` to `k` on a ring of `n`.
pub open spec fn dist(c: int, k: int, n: int) -> int {
    if k >= c {
        k - c
    } else {
        k + n - c
    }
}

/// The position after `k` on a ring of `n`.
pub open spec fn succ(k: int, n: int) -> int {
    if k + 1 < n {
        k + 1
    } else {
        0
    }
}

/// Task `k` is the first in-order task met when scanning from `c` round the ring.
pub open spec fn first_in_order(pts: Seq<SchedulePoint>, c: int, k: int) -> bool {
    let n = pts.len() as int;
    &&& 0 <= k < n
    &&& pts[k] is InOrder
    &&& forall|o: int| 0 <= o < dist(c, k, n) ==> (#[trigger] pts[rot(c, o, n)]) is At
}

/// The choice of one call at `now`, with points `pts` and round-robin cursor
/// `c`: it runs task `r` and leaves the cursor at `c2`. A due task with the
/// earliest instant goes first, the first registered among equals, and the
/// cursor stays. Without one, the first in-order task from the cursor runs and
/// the cursor moves past it; without that either, nothing runs and the cursor
/// moves on by one.
pub open spec fn selects(pts: Seq<SchedulePoint>, c: int, now: Instant, r: Option<int>, c2: int) -> bool {
    let n = pts.len() as int;
    if exists|j: int| 0 <= j < n && due(#[trigger] pts[j], now) {
        r matches Some(i) && earliest(pts, i) && due(pts[i], now) && c2 == c
    } else if exists|j: int| 0 <= j < n && (#[trigger] pts[j]) is InOrder {
        r matches Some(k) && first_in_order(pts, c, k) && c2 == succ(k, n)
    } else {
        r is None && c2 == succ(c, n)
    }
}

/// The point a task gets from what it returned at `now`: `After(d)` gives the
/// instant `now + d`.
pub open spec fn rescheduled(p: SchedulePoint, now: Instant, next: NextRun) -> bool {
    match next {
        NextRun::InOrder => p == SchedulePoint::InOrder,
        NextRun::After(d) => p matches SchedulePoint::At(t) && t@ == now@ + d@,
    }
}

impl SchedulePoint {
    /// Orders two points by their instants; `None` where either is in order.
    pub fn cmp_instant(&self, other: Self) -> (r: Option<Ordering>)
        ensures
            match (*self, other) {
                (SchedulePoint::At(a), SchedulePoint::At(b)) => r == Some(
                    if a@ < b@ {
                        Ordering::Less
                    } else if a@ == b@ {
                        Ordering::Equal
                    } else {
                        Ordering::Greater
                    },
                ),
                _ => r is None,
            },
    {
        match (*self, other) {
            (SchedulePoint::At(a), SchedulePoint::At(b)) => {
                let (a, b) = (a.ticks(), b.ticks());
                if a < b {
                    Some(Ordering::Less)
                } else if a == b {
                    Some(Ordering::Equal)
                } else {
                    Some(Ordering::Greater)
                }
            },
            _ => None,
        }
    }
}

struct Scheduled<T> {
    at: SchedulePoint,
    task: T,
}

impl<T> Scheduled<T> {
    fn is_timed(&self) -> (r: bool)
        ensures
            r == self.at is At,
    {
        self.at matches SchedulePoint::At(_)
    }

    fn is_timed_before(&self, pt: SchedulePoint) -> (r: bool)
        ensures
            r == (self.at is At && pt is At && self.at->At_0@ < pt->At_0@),
    {
        matches!(self.at.cmp_instant(pt), Some(Ordering::Less))
    }

    fn is_timed_no_later(&self, pt: SchedulePoint) -> (r: bool)
        ensures
            r == (self.at is At && pt is At && self.at->At_0@ <= pt->At_0@),
    {
        match self.at.cmp_instant(pt) {
            Some(Ordering::Less) | Some(Ordering::Equal) => true,
            _ => false,
        }
    }
}

/// A fixed set of tasks, each with its schedule point, and the round-robin
/// cursor where the next search for an in-order task starts.
pub struct Scheduler<T> {
    tasks: Vec<Scheduled<T>>,
    next_in_order: usize,
}

impl<T> Scheduler<T> {
    /// The schedule points, in registration order.
    pub closed spec fn points(&self) -> Seq<SchedulePoint> {
        self.tasks@.map_values(|s: Scheduled<T>| s.at)
    }

    /// The tasks, in registration order.
    pub closed spec fn tasks(&self) -> Seq<T> {
        self.tasks@.map_values(|s: Scheduled<T>| s.task)
    }

    /// Where the next search for an in-order task starts.
    pub closed spec fn cursor(&self) -> int {
        self.next_in_order as int
    }

    /// The cursor is a position of the ring, or 0 while there is no task.
    pub open spec fn wf(&self) -> bool {
        ||| 0 <= self.cursor() < self.points().len()
        ||| (self.points().len() == 0 && self.cursor() == 0)
    }

    proof fn lemma_views(&self)
        ensures
            self.points().len() == self.tasks@.len(),
            self.tasks().len() == self.tasks@.len(),
            forall|i: int| 0 <= i < self.tasks@.len() ==> #[trigger] self.points()[i] == self.tasks@[i].at,
            forall|i: int| 0 <= i < self.tasks@.len() ==> #[trigger] self.tasks()[i] == self.tasks@[i].task,
    {
    }

    /// Registers the tasks, in order, all to run in order, with the cursor on the first.
    pub fn new(tasks: Vec<T>) -> (r: Self)
        ensures
            r.wf(),
            r.tasks() == tasks@,
            r.points() == Seq::new(tasks@.len(), |i: int| SchedulePoint::InOrder),
            r.cursor() == 0,
    {
        let mut tasks = tasks;
        let ghost all = tasks@;
        let mut scheduled: Vec<Scheduled<T>> = Vec::new();
        while tasks.len() > 0
            invariant
                all == scheduled@.map_values(|s: Scheduled<T>| s.task) + tasks@,
                forall|i: int| 0 <= i < scheduled@.len() ==> (#[trigger] scheduled@[i]).at is InOrder,
            decreases tasks@.len(),
        {
            let task = tasks.remove(0);
            let ghost before = scheduled@;
            scheduled.push(Scheduled { at: SchedulePoint::InOrder, task });
            proof {
                assert(scheduled@.map_values(|s: Scheduled<T>| s.task) =~= before.map_values(
                    |s: Scheduled<T>| s.task,
                ).push(task));
            }
        }
        let r = Self { tasks: scheduled, next_in_order: 0 };
        proof {
            assert(r.tasks() =~= all);
            assert(r.points() =~= Seq::new(all.len(), |i: int| SchedulePoint::InOrder));
        }
        r
    }

    /// The number of tasks.
    pub fn len(&self) -> (r: usize)
        ensures
            r == self.points().len(),
    {
        self.tasks.len()
    }

    /// The schedule point of task `i`.
    pub fn schedule_point(&self, i: usize) -> (r: SchedulePoint)
        requires
            i < self.points().len(),
        ensures
            r == self.points()[i as int],
    {
        self.tasks[i].at
    }

    /// Task `i`.
    pub fn task(&self, i: usize) -> (r: &T)
        requires
            i < self.points().len(),
        ensures
            *r == self.tasks()[i as int],
    {
        &self.tasks[i].task
    }

    /// Where the next search for an in-order task starts.
    pub fn next_in_order(&self) -> (r: usize)
        ensures
            r == self.cursor(),
    {
        self.next_in_order
    }

    /// The due task with the earliest instant, the first registered among
    /// equals; `None` where no timed task is due.
    fn pick_timed(&self, now: Instant) -> (r: Option<usize>)
        ensures
            match r {
                Some(i) => earliest(self.points(), i as int) && due(self.points()[i as int], now),
                None => forall|j: int|
                    0 <= j < self.points().len() ==> !due(#[trigger] self.points()[j], now),
            },
    {
        let ghost pts = self.points();
        proof {
            self.lemma_views();
        }
        let n = self.tasks.len();
        let mut best: Option<usize> = None;
        let mut j: usize = 0;
        while j < n
            invariant
                j <= n == pts.len(),
                pts == self.points(),
                match best {
                    None => forall|k: int| 0 <= k < j ==> (#[trigger] pts[k]) is InOrder,
                    Some(b) => {
                        &&& b < j
                        &&& pts[b as int] is At
                        &&& forall|k: int|
                            0 <= k < j && (#[trigger] pts[k]) is At ==> pts[b as int]->At_0@
                                <= pts[k]->At_0@
                        &&& forall|k: int|
                            0 <= k < b && (#[trigger] pts[k]) is At ==> pts[b as int]->At_0@
                                < pts[k]->At_0@
                    },
                },
            decreases n - j,
        {
            let candidate = &self.tasks[j];
            best = match best {
                None => if candidate.is_timed() {
                    Some(j)
                } else {
                    None
                },
                Some(b) => if candidate.is_timed_before(self.tasks[b].at) {
                    Some(j)
                } else {
                    Some(b)
                },
            };
            j = j + 1;
        }
        match best {
            Some(b) => if self.tasks[b].is_timed_no_later(SchedulePoint::At(now)) {
                Some(b)
            } else {
                None
            },
            None => None,
        }
    }

    /// The first in-order task from the cursor round the ring; the cursor
    /// moves past it, or on by one where there is none.
    fn pick_in_order(&mut self) -> (r: Option<usize>)
        requires
            old(self).wf(),
            old(self).points().len() > 0,
        ensures
            final(self).points() == old(self).points(),
            final(self).tasks() == old(self).tasks(),
            final(self).wf(),
            match r {
                Some(k) => first_in_order(old(self).points(), old(self).cursor(), k as int)
                    && final(self).cursor() == succ(k as int, old(self).points().len() as int),
                None => (forall|j: int|
                    0 <= j < old(self).points().len() ==> (#[trigger] old(self).points()[j]) is At)
                    && final(self).cursor() == succ(
                    old(self).cursor(),
                    old(self).points().len() as int,
                ),
            },
    {
        let ghost pts = self.points();
        proof {
            self.lemma_views();
        }
        let n = self.tasks.len();
        let c = self.next_in_order;
        let mut found: Option<usize> = None;
        let mut o: usize = 0;
        while o < n
            invariant_except_break
                found is None,
            invariant
                o <= n == pts.len(),
                c < n,
                pts == self.points(),
                c == self.cursor(),
                forall|p: int| 0 <= p < o ==> (#[trigger] pts[rot(c as int, p, n as int)]) is At,
            ensures
                match found {
                    Some(k) => first_in_order(pts, c as int, k as int),
                    None => o == n,
                },
            decreases n - o,
        {
            let k = if o < n - c {
                c + o
            } else {
                o - (n - c)
            };
            if !self.tasks[k].is_timed() {
                proof {
                    assert(k == rot(c as int, o as int, n as int));
                    assert(dist(c as int, k as int, n as int) == o);
                }
                found = Some(k);
                break;
            }
            o = o + 1;
        }
        proof {
            if found is None {
                assert forall|j: int| 0 <= j < n implies (#[trigger] pts[j]) is At by {
                    let p = dist(c as int, j, n as int);
                    assert(rot(c as int, p, n as int) == j);
                    assert(pts[rot(c as int, p, n as int)] is At);
                }
            }
        }
        let last = match found {
            Some(k) => k,
            None => c,
        };
        self.next_in_order = if last + 1 < n {
            last + 1
        } else {
            0
        };
        found
    }

    /// Chooses the task to run at `now` and moves the cursor as `selects` says.
    pub fn pick_task(&mut self, now: Instant) -> (r: Option<usize>)
        requires
            old(self).wf(),
            old(self).points().len() > 0,
        ensures
            final(self).points() == old(self).points(),
            final(self).tasks() == old(self).tasks(),
            final(self).wf(),
            selects(
                old(self).points(),
                old(self).cursor(),
                now,
                match r {
                    Some(i) => Some(i as int),
                    None => None,
                },
                final(self).cursor(),
            ),
    {
        let ghost pts = self.points();
        match self.pick_timed(now) {
            Some(i) => Some(i),
            None => {
                let r = self.pick_in_order();
                proof {
                    if r is None {
                        assert(!exists|j: int| 0 <= j < pts.len() && (#[trigger] pts[j]) is InOrder);
                    }
                }
                r
            },
        }
    }

    /// Gives task `i` the point that `next` asks for at `now`.
    fn reschedule(&mut self, i: usize, now: Instant, next: NextRun) -> (r: Result<(), InstantOverflow>)
        requires
            i < old(self).points().len(),
        ensures
            final(self).tasks() == old(self).tasks(),
            final(self).cursor() == old(self).cursor(),
            (next matches NextRun::After(d) && now@ + d@ > u64::MAX) ==> r is Err
                && final(self).points() == old(self).points(),
            !(next matches NextRun::After(d) && now@ + d@ > u64::MAX) ==> r is Ok && exists|
                p: SchedulePoint,
            |
                rescheduled(p, now, next) && final(self).points() == old(self).points().update(
                    i as int,
                    p,
                ),
    {
        let at = match next {
            NextRun::InOrder => SchedulePoint::InOrder,
            NextRun::After(delay) => match now.checked_add_duration(delay) {
                Some(t) => SchedulePoint::At(t),
                None => {
                    return Err(InstantOverflow);
                },
            },
        };
        let ghost before = self.tasks@;
        self.tasks[i].at = at;
        proof {
            assert(rescheduled(at, now, next));
            assert(self.points() =~= old(self).points().update(i as int, at));
            assert(self.tasks() =~= before.map_values(|s: Scheduled<T>| s.task));
        }
        Ok(())
    }

    /// Runs one task, the one that `selects` names for `now`, exactly once (as
    /// its `ran` says), returns its action, and gives it the point it asked
    /// for, measured from `now`; the other tasks and their points stay as they
    /// were. Where no task is eligible nothing runs and `Ok(None)` comes back.
    /// `Err` where the asked-for instant is past the clock's range: the task
    /// has run, its point is left as it was, and no valid schedule remains.
    pub fn run<S, A>(&mut self, now: Instant, state: &mut S) -> (r: Result<
        Option<A>,
        InstantOverflow,
    >) where T: Task<S, A>
        requires
            old(self).wf(),
            old(self).points().len() > 0,
        ensures
            final(self).wf(),
            final(self).points().len() == old(self).points().len(),
            exists|p: Option<int>|
                selects(old(self).points(), old(self).cursor(), now, p, final(self).cursor())
                    && match p {
                    None => {
                        &&& r == Ok::<Option<A>, InstantOverflow>(None)
                        &&& final(self).points() == old(self).points()
                        &&& final(self).tasks() == old(self).tasks()
                        &&& *final(state) == *old(state)
                    },
                    Some(i) => {
                        &&& forall|j: int|
                            0 <= j < old(self).points().len() && j != i ==> final(self).tasks()[j]
                                == old(self).tasks()[j] && #[trigger] final(self).points()[j]
                                == old(self).points()[j]
                        &&& exists|out: (Option<A>, NextRun)|
                            {
                                &&& #[trigger] old(self).tasks()[i].ran(
                                    *old(state),
                                    &final(self).tasks()[i],
                                    *final(state),
                                    out,
                                )
                                &&& r is Ok ==> r == Ok::<Option<A>, InstantOverflow>(out.0)
                                    && rescheduled(final(self).points()[i], now, out.1)
                                &&& r is Err ==> final(self).points()[i] == old(self).points()[i]
                                    && (out.1 matches NextRun::After(d) && now@ + d@ > u64::MAX)
                            }
                    },
                },
    {
        let ghost pts0 = self.points();
        let ghost c0 = self.cursor();
        let picked = self.pick_task(now);
        match picked {
            None => {
                assert(selects(pts0, c0, now, None, self.cursor()));
                Ok(None)
            },
            Some(i) => {
                let ghost mid = self.tasks@;
                let ghost state0 = *state;
                let (action, next) = self.tasks[i].task.run(state);
                proof {
                    assert(self.points() =~= mid.map_values(|s: Scheduled<T>| s.at));
                    assert forall|j: int| 0 <= j < pts0.len() && j != i implies self.tasks()[j]
                        == old(self).tasks()[j] by {
                        assert(self.tasks@[j] == mid[j]);
                    }
                }
                let ghost ran = self.tasks();
                let done = self.reschedule(i, now, next);
                assert(selects(pts0, c0, now, Some(i as int), self.cursor()));
                proof {
                    assert(self.tasks()[i as int] == ran[i as int]);
                    assert(old(self).tasks()[i as int].ran(
                        state0,
                        &self.tasks()[i as int],
                        *state,
                        (action, next),
                    ));
                }
                match done {
                    Ok(()) => {
                        assert(rescheduled(self.points()[i as int], now, next));
                        Ok(action)
                    },
                    Err(e) => Err(e),
                }
            },
        }
    }
}

impl<T> Default for Scheduler<T> {
    /// A scheduler without tasks.
    fn default() -> (r: Self)
        ensures
            r.wf(),
            r.points().len() == 0,
            r.cursor() == 0,
    {
        let r = Self { tasks: Vec::new(), next_in_order: 0 };
        assert(r.points() =~= Seq::empty());
        r
    }
}

/// Where the cursor stands after `k` calls from `c` on a ring of `n`, when
/// every call runs the in-order task at the cursor.
pub open spec fn cursor_after(c: int, n: int, k: nat) -> int
    decreases k,
{
    if k == 0 {
        c
    } else {
        succ(cursor_after(c, n, (k - 1) as nat), n)
    }
}

/// Round robin: while every task runs in order, call `k` of a run of calls
/// that starts with the cursor at `c` runs task `(c + k) mod n`, and leaves
/// the cursor on the task after it.
pub proof fn lemma_in_order_rotation(pts: Seq<SchedulePoint>, c: int, now: Instant, k: nat)
    requires
        0 <= c < pts.len(),
        forall|j: int| 0 <= j < pts.len() ==> (#[trigger] pts[j]) is InOrder,
    ensures
        cursor_after(c, pts.len() as int, k) == (c + k) % (pts.len() as int),
        selects(
            pts,
            cursor_after(c, pts.len() as int, k),
            now,
            Some((c + k) % (pts.len() as int)),
            cursor_after(c, pts.len() as int, k + 1),
        ),
    decreases k,
{
    let n = pts.len() as int;
    if k == 0 {
        lemma_small_mod(c as nat, n as nat);
    } else {
        lemma_in_order_rotation(pts, c, now, (k - 1) as nat);
        let prev = (c + k - 1) % n;
        lemma_add_mod_noop(c + k - 1, 1, n);
        if n > 1 {
            lemma_small_mod(1, n as nat);
        } else {
            lemma_mod_self_0(1);
        }
        if prev + 1 < n {
            lemma_small_mod((prev + 1) as nat, n as nat);
        } else {
            lemma_mod_self_0(n);
        }
    }
    let ck = cursor_after(c, n, k);
    assert(!exists|j: int| 0 <= j < n && due(#[trigger] pts[j], now));
    assert(pts[ck] is InOrder);
    assert(first_in_order(pts, ck, ck));
}

/// Each task once per full pass: over `n` calls from cursor `c` the tasks
/// run, `(c + k) mod n` for `k` in `0..n`, are all different and cover the ring.
pub proof fn lemma_rotation_visits_each_once(c: int, n: int)
    requires
        0 <= c < n,
    ensures
        forall|k1: int, k2: int|
            0 <= k1 < k2 < n ==> #[trigger] ((c + k1) % n) != #[trigger] ((c + k2) % n),
        forall|i: int| 0 <= i < n ==> (c + dist(c, i, n)) % n == i && 0 <= dist(c, i, n) < n,
{
    assert forall|k1: int, k2: int| 0 <= k1 < k2 < n implies #[trigger] ((c + k1) % n) != #[trigger] ((
    c + k2) % n) by {
        vstd::arithmetic::div_mod::lemma_fundamental_div_mod(c + k1, n);
        vstd::arithmetic::div_mod::lemma_fundamental_div_mod(c + k2, n);
        assert((c + k1) / n == 0 || (c + k1) / n == 1) by (nonlinear_arith)
            requires
                0 <= c + k1 < 2 * n,
                (c + k1) == n * ((c + k1) / n) + (c + k1) % n,
                0 <= (c + k1) % n < n,
        ;
        assert((c + k2) / n == 0 || (c + k2) / n == 1) by (nonlinear_arith)
            requires
                0 <= c + k2 < 2 * n,
                (c + k2) == n * ((c + k2) / n) + (c + k2) % n,
                0 <= (c + k2) % n < n,
        ;
    }
    assert forall|i: int| 0 <= i < n implies (c + dist(c, i, n)) % n == i by {
        if i >= c {
            lemma_small_mod(i as nat, n as nat);
        } else {
            vstd::arithmetic::div_mod::lemma_mod_add_multiples_vanish(i, n);
            lemma_small_mod(i as nat, n as nat);
        }
    }
}

/// Deadlines first: where some timed task is due, the call runs a due timed
/// task, never an in-order one.
pub proof fn lemma_due_task_first(
    pts: Seq<SchedulePoint>,
    c: int,
    now: Instant,
    r: Option<int>,
    c2: int,
    j: int,
)
    requires
        selects(pts, c, now, r, c2),
        0 <= j < pts.len(),
        due(pts[j], now),
    ensures
        r matches Some(i) && pts[i] is At && due(pts[i], now),
{
}

/// Earliest deadline first: where tasks `j` and `k` are both due, the task
/// that runs has an instant no later than either, and where theirs are equal
/// it is not `k` when `j` was registered before it.
pub proof fn lemma_earliest_due_first(
    pts: Seq<SchedulePoint>,
    c: int,
    now: Instant,
    r: Option<int>,
    c2: int,
    j: int,
    k: int,
)
    requires
        selects(pts, c, now, r, c2),
        0 <= j < k < pts.len(),
        due(pts[j], now),
        due(pts[k], now),
    ensures
        r matches Some(i) && pts[i]->At_0@ <= pts[j]->At_0@ && pts[i]->At_0@ <= pts[k]->At_0@,
        pts[j]->At_0@ == pts[k]->At_0@ ==> r != Some(k),
{
    assert(pts[j] is At && pts[k] is At);
}

} // verus!
