//! The bounded scheduler.
//!
//! A run owns a fixed set of worker slots, one remaining-work queue per slot
//! (filled by round-robin partitioning), and the outcomes recorded so far.
//! Each slot holds at most one in-flight capture: a worker may `begin` its
//! next target only while idle, and must `finish` with exactly one outcome
//! before it can begin another. The number of simultaneously in-flight
//! captures therefore never exceeds the worker count, one task's failure
//! never touches a sibling slot, and when the run reports done, every target
//! handed in at construction is accounted for by exactly one outcome.

use crate::outcome::CaptureOutcome;
use crate::partition::flat_len;
use crate::partition::lemma_flat_len_lower;
use crate::partition::lemma_flat_len_nonneg;
use crate::partition::lemma_flat_len_update;
use crate::partition::lemma_round_robin_conserves;
use crate::partition::partition;
use crate::partition::rr_slice;
use crate::target::Target;
use vstd::prelude::*;

verus! {

/// How many of the flags are set: the number of busy worker slots.
pub open spec fn count_true(flags: Seq<bool>) -> int
    decreases flags.len(),
{
    if flags.len() == 0 {
        0
    } else {
        count_true(flags.drop_last()) + if flags.last() {
            1int
        } else {
            0int
        }
    }
}

/// No more flags are set than there are flags.
proof fn lemma_count_true_le_len(flags: Seq<bool>)
    ensures
        0 <= count_true(flags) <= flags.len(),
    decreases flags.len(),
{
    if flags.len() > 0 {
        lemma_count_true_le_len(flags.drop_last());
    }
}

/// Setting or clearing one flag changes the count accordingly.
proof fn lemma_count_true_update(flags: Seq<bool>, i: int, b: bool)
    requires
        0 <= i < flags.len(),
    ensures
        count_true(flags.update(i, b)) == count_true(flags) - (if flags[i] {
            1int
        } else {
            0int
        }) + (if b {
            1int
        } else {
            0int
        }),
    decreases flags.len(),
{
    if i == flags.len() - 1 {
        assert(flags.update(i, b).drop_last() =~= flags.drop_last());
    } else {
        assert(flags.update(i, b).drop_last() =~= flags.drop_last().update(i, b));
        lemma_count_true_update(flags.drop_last(), i, b);
    }
}

/// One run's scheduling state: per-worker remaining work, per-worker busy
/// flags, and the outcomes collected so far.
pub struct Scheduler {
    queues: Vec<Vec<Target>>,
    busy: Vec<bool>,
    outcomes: Vec<CaptureOutcome>,
    running: usize,
    queued: usize,
    total: Ghost<int>,
}

impl Scheduler {
    /// The concurrency limit: the number of worker slots.
    pub closed spec fn limit(&self) -> int {
        self.queues@.len() as int
    }

    /// Each worker's remaining targets, in assignment order.
    pub closed spec fn work(&self) -> Seq<Seq<Target>> {
        self.queues@.map_values(|q: Vec<Target>| q@)
    }

    /// Whether worker `w` has a capture in flight.
    pub closed spec fn is_busy(&self, w: int) -> bool {
        self.busy@[w]
    }

    /// How many captures are in flight right now.
    pub closed spec fn in_flight(&self) -> int {
        count_true(self.busy@)
    }

    /// How many outcomes have been recorded.
    pub closed spec fn completed(&self) -> int {
        self.outcomes@.len() as int
    }

    /// How many targets still wait in the queues.
    pub closed spec fn pending(&self) -> int {
        flat_len(self.work())
    }

    /// How many targets the run was constructed with.
    pub closed spec fn total(&self) -> int {
        self.total@
    }

    /// The outcomes recorded so far, in completion order.
    pub closed spec fn outcomes_view(&self) -> Seq<CaptureOutcome> {
        self.outcomes@
    }

    /// The scheduler's invariant: one busy flag per queue, at least one
    /// worker slot, and every target of the run is exactly one of pending,
    /// in flight, or resolved to a recorded outcome.
    pub closed spec fn wf(&self) -> bool {
        &&& self.queues@.len() >= 1
        &&& self.busy@.len() == self.queues@.len()
        &&& self.running as int == count_true(self.busy@)
        &&& self.queued as int == flat_len(self.work())
        &&& self.completed() + self.in_flight() + self.pending() == self.total@
    }

    /// Start a run: partition the targets round-robin across
    /// `worker_count` idle workers, with no outcome recorded yet.
    pub fn new(targets: Vec<Target>, worker_count: usize) -> (s: Scheduler)
        requires
            worker_count >= 1,
        ensures
            s.wf(),
            s.limit() == worker_count,
            s.work().len() == worker_count,
            s.total() == targets@.len(),
            s.completed() == 0,
            s.in_flight() == 0,
            s.pending() == targets@.len(),
            s.outcomes_view() == Seq::<CaptureOutcome>::empty(),
            forall|w: int|
                0 <= w < worker_count ==> #[trigger] s.work()[w] == rr_slice(
                    targets@,
                    worker_count as int,
                    w,
                ),
            forall|w: int| 0 <= w < worker_count ==> !s.is_busy(w),
    {
        let ghost ts = targets@;
        let n = targets.len();
        let queues = partition(targets, worker_count);
        let mut busy: Vec<bool> = Vec::new();
        while busy.len() < worker_count
            invariant
                busy@.len() <= worker_count,
                count_true(busy@) == 0,
                forall|w: int| 0 <= w < busy@.len() ==> !busy@[w],
            decreases worker_count - busy@.len(),
        {
            let ghost pre = busy@;
            busy.push(false);
            proof {
                assert(busy@.drop_last() =~= pre);
            }
        }
        let s = Scheduler {
            queues,
            busy,
            outcomes: Vec::new(),
            running: 0,
            queued: n,
            total: Ghost(n as int),
        };
        proof {
            assert(s.work() =~= Seq::new(
                worker_count as nat,
                |w: int| rr_slice(ts, worker_count as int, w),
            ));
            lemma_round_robin_conserves(ts, worker_count as int);
        }
        s
    }

    /// Hand worker `w` its next target, marking the slot busy. Returns the
    /// head of the worker's queue exactly when the slot is idle and work
    /// remains for it; a busy or exhausted slot gets nothing and the state
    /// does not change.
    pub fn begin(&mut self, w: usize) -> (r: Option<Target>)
        requires
            old(self).wf(),
            (w as int) < old(self).limit(),
        ensures
            final(self).wf(),
            final(self).limit() == old(self).limit(),
            final(self).total() == old(self).total(),
            final(self).completed() == old(self).completed(),
            final(self).outcomes_view() == old(self).outcomes_view(),
            (r is Some) == (!old(self).is_busy(w as int) && old(self).work()[w as int].len() > 0),
            r is Some ==> r->0 == old(self).work()[w as int][0],
            r is Some ==> final(self).work() == old(self).work().update(
                w as int,
                old(self).work()[w as int].skip(1),
            ),
            r is Some ==> final(self).is_busy(w as int),
            r is Some ==> final(self).in_flight() == old(self).in_flight() + 1,
            r is Some ==> final(self).pending() == old(self).pending() - 1,
            r is None ==> *final(self) == *old(self),
            forall|v: int|
                0 <= v < old(self).limit() && v != w ==> final(self).is_busy(v) == old(
                    self,
                ).is_busy(v),
    {
        if self.busy[w] {
            return None;
        }
        if self.queues[w].len() == 0 {
            return None;
        }
        let ghost old_work = self.work();
        let ghost old_busy = self.busy@;
        let mut q = self.queues.remove(w);
        let t = q.remove(0);
        proof {
            assert(q@ =~= old_work[w as int].skip(1));
        }
        self.queues.insert(w, q);
        proof {
            assert(self.queues@ =~= old(self).queues@.update(w as int, self.queues@[w as int]));
            assert(self.work() =~= old_work.update(w as int, old_work[w as int].skip(1)));
            lemma_flat_len_update(old_work, w as int, old_work[w as int].skip(1));
            lemma_flat_len_lower(old_work, w as int);
            lemma_flat_len_nonneg(self.work());
        }
        self.busy[w] = true;
        let slots = self.busy.len();
        proof {
            assert(self.busy@ =~= old_busy.update(w as int, true));
            lemma_count_true_update(old_busy, w as int, true);
            lemma_count_true_le_len(self.busy@);
            assert(count_true(self.busy@) <= slots);
        }
        self.running = self.running + 1;
        self.queued = self.queued - 1;
        Some(t)
    }

    /// Record worker `w`'s outcome for the capture it had in flight and free
    /// the slot: the slot is immediately reusable for the worker's next
    /// target, whatever the outcome was.
    pub fn finish(&mut self, w: usize, outcome: CaptureOutcome)
        requires
            old(self).wf(),
            (w as int) < old(self).limit(),
            old(self).is_busy(w as int),
        ensures
            final(self).wf(),
            final(self).limit() == old(self).limit(),
            final(self).total() == old(self).total(),
            final(self).work() == old(self).work(),
            final(self).pending() == old(self).pending(),
            final(self).outcomes_view() == old(self).outcomes_view().push(outcome),
            final(self).completed() == old(self).completed() + 1,
            !final(self).is_busy(w as int),
            final(self).in_flight() == old(self).in_flight() - 1,
            forall|v: int|
                0 <= v < old(self).limit() && v != w ==> final(self).is_busy(v) == old(
                    self,
                ).is_busy(v),
    {
        let ghost old_busy = self.busy@;
        self.busy[w] = false;
        proof {
            assert(self.busy@ =~= old_busy.update(w as int, false));
            lemma_count_true_update(old_busy, w as int, false);
            lemma_count_true_le_len(self.busy@);
        }
        self.running = self.running - 1;
        self.outcomes.push(outcome);
    }

    /// Whether the run is complete: no capture in flight and no target
    /// waiting. A complete run has recorded exactly one outcome per target
    /// handed in at construction.
    pub fn is_done(&self) -> (r: bool)
        requires
            self.wf(),
        ensures
            r == (self.in_flight() == 0 && self.pending() == 0),
            r ==> self.completed() == self.total(),
    {
        self.running == 0 && self.queued == 0
    }

    /// The outcomes recorded so far, in completion order.
    pub fn outcomes(&self) -> (r: &Vec<CaptureOutcome>)
        ensures
            r@ == self.outcomes_view(),
    {
        &self.outcomes
    }

    /// Surrender the run's collected outcomes.
    pub fn into_outcomes(self) -> (r: Vec<CaptureOutcome>)
        ensures
            r@ == self.outcomes_view(),
    {
        self.outcomes
    }

    /// How many captures are in flight right now.
    pub fn in_flight_count(&self) -> (r: usize)
        ensures
            self.wf() ==> r as int == self.in_flight(),
    {
        self.running
    }

    /// How many targets still wait in the queues.
    pub fn pending_count(&self) -> (r: usize)
        ensures
            self.wf() ==> r as int == self.pending(),
    {
        self.queued
    }

    /// The number of worker slots.
    pub fn worker_count(&self) -> (r: usize)
        ensures
            r as int == self.limit(),
    {
        self.queues.len()
    }
}

/// At every reachable state of a run with limit `k`, the number of
/// simultaneously in-flight captures is at most `k`.
pub proof fn lemma_in_flight_bounded(s: &Scheduler)
    requires
        s.wf(),
    ensures
        0 <= s.in_flight() <= s.limit(),
{
    lemma_count_true_le_len(s.busy@);
}

/// No target is silently dropped: at every reachable state, the targets the
/// run was constructed with are exactly the pending ones, the in-flight
/// ones, and those already resolved to a recorded outcome.
pub proof fn lemma_no_target_lost(s: &Scheduler)
    requires
        s.wf(),
    ensures
        s.completed() + s.in_flight() + s.pending() == s.total(),
{
}

} // verus!
