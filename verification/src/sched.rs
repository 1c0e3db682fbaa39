//! Priority-preemptive scheduler core.
//!
//! A monotonic free-running cycle counter drives "run at or after instant
//! T" scheduling. Tasks are registered with a static priority; each call to
//! `schedule_at` arms exactly one future invocation. Dispatch always picks,
//! among the invocations whose instant has arrived, one of a task of
//! maximal priority; among equal-priority invocations the earlier instant
//! wins, and arrival order breaks the remaining ties (first in, first out).

use vstd::prelude::*;
use crate::errors::SchedulingError;

verus! {

/// One armed future invocation of a registered task.
#[derive(Clone, Copy, Debug, PartialEq, Eq, Structural)]
pub struct ArmedTask {
    /// Index of the task in the registration order.
    pub task: usize,
    /// The instant at or after which the invocation runs.
    pub at: u64,
    /// Arming order, used only to break ties first-in-first-out.
    pub seq: u64,
}

/// The scheduler state: registered priorities, armed invocations, and the
/// current instant of the monotonic clock.
pub struct SchedulerCore {
    pub priorities: Vec<u8>,
    pub pending: Vec<ArmedTask>,
    pub now: u64,
    pub next_seq: u64,
}

impl SchedulerCore {
    pub open spec fn wf(self) -> bool {
        &&& forall|i: int|
            0 <= i < self.pending@.len() ==> (#[trigger] self.pending@[i]).task
                < self.priorities@.len()
        &&& forall|i: int|
            0 <= i < self.pending@.len() ==> (#[trigger] self.pending@[i]).seq < self.next_seq
        &&& forall|i: int, j: int|
            0 <= i < j < self.pending@.len() ==> (#[trigger] self.pending@[i]).seq != (
            #[trigger] self.pending@[j]).seq
    }

    /// The armed invocation at index `i` is due to run.
    pub open spec fn ready(self, i: int) -> bool {
        self.pending@[i].at <= self.now
    }

    /// `a` runs before `b`: strictly higher priority first; at equal
    /// priority the earlier instant first; at equal instants, arming order.
    pub open spec fn beats(self, a: ArmedTask, b: ArmedTask) -> bool {
        let pa = self.priorities@[a.task as int];
        let pb = self.priorities@[b.task as int];
        ||| pa > pb
        ||| (pa == pb && (a.at < b.at || (a.at == b.at && a.seq < b.seq)))
    }

    /// Index `i` holds an invocation that dispatch may select: it is due,
    /// and it beats every other due invocation.
    pub open spec fn is_dispatch_choice(self, i: int) -> bool {
        &&& 0 <= i < self.pending@.len()
        &&& self.ready(i)
        &&& forall|k: int|
            0 <= k < self.pending@.len() && k != i && self.ready(k) ==> self.beats(
                self.pending@[i],
                #[trigger] self.pending@[k],
            )
    }

    /// An empty scheduler whose clock starts at `now`.
    pub fn new(now: u64) -> (r: SchedulerCore)
        ensures
            r.wf(),
            r.priorities@.len() == 0,
            r.pending@.len() == 0,
            r.now == now,
            r.next_seq == 0,
    {
        SchedulerCore { priorities: Vec::new(), pending: Vec::new(), now, next_seq: 0 }
    }

    /// How many invocations are currently armed.
    pub fn pending_count(&self) -> (r: usize)
        ensures
            r == self.pending@.len(),
    {
        self.pending.len()
    }

    /// Register a task with its static priority; returns the task's index.
    pub fn register(&mut self, priority: u8) -> (task: usize)
        requires
            old(self).wf(),
        ensures
            final(self).wf(),
            task == old(self).priorities@.len(),
            final(self).priorities@ == old(self).priorities@.push(priority),
            final(self).pending@ == old(self).pending@,
            final(self).now == old(self).now,
            final(self).next_seq == old(self).next_seq,
    {
        let task = self.priorities.len();
        self.priorities.push(priority);
        task
    }

    /// Advance the monotonic clock. The time source never runs backwards.
    pub fn advance_to(&mut self, now: u64)
        requires
            now >= old(self).now,
        ensures
            final(self).now == now,
            final(self).priorities@ == old(self).priorities@,
            final(self).pending@ == old(self).pending@,
            final(self).next_seq == old(self).next_seq,
            old(self).wf() ==> final(self).wf(),
    {
        self.now = now;
    }

    /// Arm exactly one future invocation of `task` at instant `at`.
    ///
    /// An instant strictly before the current one has already elapsed: the
    /// request is refused with `SchedulingError::Elapsed` and nothing is
    /// armed. Callers owning periodic tasks must treat repeated refusals
    /// as a missed-deadline condition.
    pub fn schedule_at(&mut self, task: usize, at: u64) -> (r: Result<(), SchedulingError>)
        requires
            old(self).wf(),
            task < old(self).priorities@.len(),
            old(self).next_seq < u64::MAX,
        ensures
            final(self).wf(),
            final(self).priorities@ == old(self).priorities@,
            final(self).now == old(self).now,
            at < old(self).now ==> {
                &&& r == Err::<(), SchedulingError>(SchedulingError::Elapsed)
                &&& final(self).pending@ == old(self).pending@
                &&& final(self).next_seq == old(self).next_seq
            },
            at >= old(self).now ==> {
                &&& r == Ok::<(), SchedulingError>(())
                &&& final(self).pending@ == old(self).pending@.push(
                    ArmedTask { task, at, seq: old(self).next_seq },
                )
                &&& final(self).next_seq == old(self).next_seq + 1
            },
    {
        if at < self.now {
            Err(SchedulingError::Elapsed)
        } else {
            let entry = ArmedTask { task, at, seq: self.next_seq };
            self.pending.push(entry);
            self.next_seq = self.next_seq + 1;
            Ok(())
        }
    }

    /// Select and disarm the invocation to run now, if any is due.
    ///
    /// The selected invocation is one that `is_dispatch_choice` admits: it
    /// beats every other due invocation, so a strictly higher-priority due
    /// task is always taken first, and equal-priority ties go by instant,
    /// then first-in-first-out.
    pub fn pop_next(&mut self) -> (r: Option<usize>)
        requires
            old(self).wf(),
        ensures
            final(self).wf(),
            final(self).priorities@ == old(self).priorities@,
            final(self).now == old(self).now,
            final(self).next_seq == old(self).next_seq,
            r is None ==> {
                &&& final(self).pending@ == old(self).pending@
                &&& forall|k: int| 0 <= k < old(self).pending@.len() ==> !old(self).ready(k)
            },
            r is Some ==> exists|i: int|
                {
                    &&& #[trigger] old(self).is_dispatch_choice(i)
                    &&& r == Some(old(self).pending@[i].task)
                    &&& final(self).pending@ == old(self).pending@.remove(i)
                },
    {
        let n: usize = self.pending.len();
        let mut found: bool = false;
        let mut best: usize = 0;
        for k in 0..n
            invariant
                n == self.pending@.len(),
                self.wf(),
                !found ==> forall|j: int| 0 <= j < k ==> !self.ready(j),
                found ==> {
                    &&& best < n
                    &&& (best as int) < (k as int)
                    &&& self.ready(best as int)
                    &&& forall|j: int|
                        0 <= j < k && j != best && self.ready(j) ==> self.beats(
                            self.pending@[best as int],
                            #[trigger] self.pending@[j],
                        )
                },
        {
            if self.pending[k].at <= self.now {
                if !found {
                    found = true;
                    best = k;
                } else {
                    let cand = self.pending[k];
                    let cur = self.pending[best];
                    let pc = self.priorities[cand.task];
                    let pb = self.priorities[cur.task];
                    let cand_beats = pc > pb || (pc == pb && (cand.at < cur.at || (cand.at
                        == cur.at && cand.seq < cur.seq)));
                    if cand_beats {
                        best = k;
                    }
                }
            }
        }
        if !found {
            return None;
        }
        let chosen = self.pending[best].task;
        proof {
            assert(old(self).is_dispatch_choice(best as int));
        }
        self.pending.remove(best);
        proof {
            let p0 = old(self).pending@;
            let q = p0.remove(best as int);
            assert forall|a: int, b: int| 0 <= a < b < q.len() implies (#[trigger] q[a]).seq != (
            #[trigger] q[b]).seq by {
                assert(q[a] == if a < best as int { p0[a] } else { p0[a + 1] });
                assert(q[b] == if b < best as int { p0[b] } else { p0[b + 1] });
            }
            assert(self.pending@ == old(self).pending@.remove(best as int));
        }
        Some(chosen)
    }
}

/// Preemption holds under load: while any due invocation of a strictly
/// higher-priority task is armed, dispatch never selects the lower-priority
/// invocation — whatever else is pending and however often the higher-
/// priority line fires.
pub proof fn lemma_higher_priority_preempts(s: SchedulerCore, i: int, k: int)
    requires
        s.wf(),
        0 <= i < s.pending@.len(),
        0 <= k < s.pending@.len(),
        s.ready(i),
        s.ready(k),
        s.priorities@[s.pending@[k].task as int] > s.priorities@[s.pending@[i].task as int],
    ensures
        !s.is_dispatch_choice(i),
{
}

/// Among equal-priority due invocations, dispatch is first-in-first-out on
/// the scheduled instant: a later instant, or at the same instant a later
/// arming, is never selected ahead of an earlier one.
pub proof fn lemma_equal_priority_fifo(s: SchedulerCore, i: int, k: int)
    requires
        s.wf(),
        0 <= i < s.pending@.len(),
        0 <= k < s.pending@.len(),
        i != k,
        s.ready(i),
        s.ready(k),
        s.priorities@[s.pending@[k].task as int] == s.priorities@[s.pending@[i].task as int],
        s.pending@[k].at < s.pending@[i].at || (s.pending@[k].at == s.pending@[i].at
            && s.pending@[k].seq < s.pending@[i].seq),
    ensures
        !s.is_dispatch_choice(i),
{
}

} // verus!
