//! Shared pendant state under the priority-ceiling protocol.
//!
//! Every shared field's access sites are known ahead of time: each task
//! declares its static priority and the fields it touches, and the ceiling
//! of a field is the maximum priority of any task that ever touches it. A
//! task accesses a field only while running at that field's ceiling, which
//! is the sole synchronization mechanism — no task ever blocks. The store
//! owns the pendant state and scopes every access to a single field, so
//! two different fields never contend with each other.

use vstd::prelude::*;
use crate::axis::SelectedAxis;
use crate::multiplier::SelectedMultiplier;
use crate::pendant::Pendant;

verus! {

/// The independently-locked fields of the pendant state.
#[derive(Clone, Copy, Debug, PartialEq, Eq, Structural)]
pub enum StateField {
    Estopped,
    Multiplier,
    Axis,
}

/// One task's declaration: its static priority and the shared fields its
/// body ever touches.
#[derive(Clone, Copy, Debug, PartialEq, Eq, Structural)]
pub struct TaskDecl {
    pub priority: u8,
    pub touches_estopped: bool,
    pub touches_multiplier: bool,
    pub touches_axis: bool,
}

impl TaskDecl {
    pub open spec fn touches(self, f: StateField) -> bool {
        match f {
            StateField::Estopped => self.touches_estopped,
            StateField::Multiplier => self.touches_multiplier,
            StateField::Axis => self.touches_axis,
        }
    }
}

/// The priority ceiling of `f`: the maximum priority of any declared task
/// that touches `f`, and 0 when no task does.
pub open spec fn ceiling_of(tasks: Seq<TaskDecl>, f: StateField) -> int
    decreases tasks.len(),
{
    if tasks.len() == 0 {
        0
    } else {
        let rest = ceiling_of(tasks.drop_last(), f);
        if tasks.last().touches(f) && tasks.last().priority > rest {
            tasks.last().priority as int
        } else {
            rest
        }
    }
}

/// No task that touches a field outranks the field's ceiling, so a task
/// holding a field at its ceiling cannot be preempted by any other task
/// that could touch the same field: mutual exclusion without blocking, and
/// no unbounded priority-inversion path.
pub proof fn lemma_ceiling_dominates(tasks: Seq<TaskDecl>, f: StateField, i: int)
    requires
        0 <= i < tasks.len(),
        tasks[i].touches(f),
    ensures
        tasks[i].priority <= ceiling_of(tasks, f),
    decreases tasks.len(),
{
    if i < tasks.len() - 1 {
        lemma_ceiling_dominates(tasks.drop_last(), f, i);
    }
}

/// The ceiling never exceeds what the declared tasks ask for: it is 0 when
/// no task touches the field, and otherwise the priority of some task that
/// does. Raising to the ceiling is exactly "the maximum priority of any
/// task that ever touches that resource", never more.
pub proof fn lemma_ceiling_attained(tasks: Seq<TaskDecl>, f: StateField)
    ensures
        ceiling_of(tasks, f) == 0 || exists|i: int|
            0 <= i < tasks.len() && (#[trigger] tasks[i]).touches(f) && tasks[i].priority
                == ceiling_of(tasks, f),
    decreases tasks.len(),
{
    if tasks.len() > 0 {
        lemma_ceiling_attained(tasks.drop_last(), f);
        let rest = ceiling_of(tasks.drop_last(), f);
        if !(tasks.last().touches(f) && tasks.last().priority > rest) && rest != 0 {
            let j = choose|i: int|
                0 <= i < tasks.drop_last().len() && (#[trigger] tasks.drop_last()[i]).touches(f)
                    && tasks.drop_last()[i].priority == rest;
            assert(tasks[j].touches(f) && tasks[j].priority == ceiling_of(tasks, f));
        }
    }
}

/// Init-time check that the task declared at `i` runs at the highest
/// priority of any task in the system — required of the emergency-stop
/// handler, which no priority-ceiling section of any other task may block.
pub fn is_highest_priority(tasks: &Vec<TaskDecl>, i: usize) -> (r: bool)
    requires
        i < tasks@.len(),
    ensures
        r == forall|j: int|
            0 <= j < tasks@.len() ==> (#[trigger] tasks@[j]).priority <= tasks@[i as int].priority,
{
    let p = tasks[i].priority;
    let n: usize = tasks.len();
    for j in 0..n
        invariant
            n == tasks@.len(),
            i < n,
            p == tasks@[i as int].priority,
            forall|k: int| 0 <= k < j ==> (#[trigger] tasks@[k]).priority <= p,
    {
        if tasks[j].priority > p {
            return false;
        }
    }
    true
}

/// The computed ceilings, one per shared field.
#[derive(Clone, Copy, Debug, PartialEq, Eq, Structural)]
pub struct CeilingPlan {
    pub estopped: u8,
    pub multiplier: u8,
    pub axis: u8,
}

/// Init-time ceiling computation over the task registry.
pub fn compute_ceilings(tasks: &Vec<TaskDecl>) -> (r: CeilingPlan)
    ensures
        r.estopped == ceiling_of(tasks@, StateField::Estopped),
        r.multiplier == ceiling_of(tasks@, StateField::Multiplier),
        r.axis == ceiling_of(tasks@, StateField::Axis),
{
    let mut estopped: u8 = 0;
    let mut multiplier: u8 = 0;
    let mut axis: u8 = 0;
    let n: usize = tasks.len();
    for i in 0..n
        invariant
            n == tasks@.len(),
            estopped == ceiling_of(tasks@.take(i as int), StateField::Estopped),
            multiplier == ceiling_of(tasks@.take(i as int), StateField::Multiplier),
            axis == ceiling_of(tasks@.take(i as int), StateField::Axis),
    {
        let t = tasks[i];
        proof {
            assert(tasks@.take(i + 1).drop_last() =~= tasks@.take(i as int));
            assert(tasks@.take(i + 1).last() == tasks@[i as int]);
        }
        if t.touches_estopped && t.priority > estopped {
            estopped = t.priority;
        }
        if t.touches_multiplier && t.priority > multiplier {
            multiplier = t.priority;
        }
        if t.touches_axis && t.priority > axis {
            axis = t.priority;
        }
    }
    proof {
        assert(tasks@.take(n as int) =~= tasks@);
    }
    CeilingPlan { estopped, multiplier, axis }
}

/// Sole owner of the pendant state. Each accessor is scoped to one field
/// and demands the caller's effective priority to equal that field's
/// ceiling; accessors for different fields are independent of each other.
pub struct SharedStateStore {
    pub state: Pendant,
    pub plan: CeilingPlan,
}

impl SharedStateStore {
    /// A store in the fail-safe initial state, guarded by `plan`.
    pub fn new(plan: CeilingPlan) -> (r: SharedStateStore)
        ensures
            r.state == Pendant::initial(),
            r.plan == plan,
    {
        SharedStateStore { state: Pendant::new(), plan }
    }

    pub fn read_estopped(&self, at_priority: u8) -> (r: bool)
        requires
            at_priority == self.plan.estopped,
        ensures
            r == self.state.is_estopped,
    {
        self.state.estopped()
    }

    pub fn write_estopped(&mut self, at_priority: u8, level_asserted: bool)
        requires
            at_priority == old(self).plan.estopped,
        ensures
            final(self).state.is_estopped == level_asserted,
            final(self).state.multiplier == old(self).state.multiplier,
            final(self).state.axis == old(self).state.axis,
            final(self).plan == old(self).plan,
    {
        self.state.write_estop_level(level_asserted);
    }

    pub fn read_multiplier(&self, at_priority: u8) -> (r: Option<SelectedMultiplier>)
        requires
            at_priority == self.plan.multiplier,
        ensures
            r == self.state.multiplier,
    {
        self.state.multiplier()
    }

    pub fn write_multiplier(&mut self, at_priority: u8, multiplier: Option<SelectedMultiplier>)
        requires
            at_priority == old(self).plan.multiplier,
        ensures
            final(self).state.multiplier == multiplier,
            final(self).state.is_estopped == old(self).state.is_estopped,
            final(self).state.axis == old(self).state.axis,
            final(self).plan == old(self).plan,
    {
        self.state.set_multiplier(multiplier);
    }

    pub fn read_axis(&self, at_priority: u8) -> (r: Option<SelectedAxis>)
        requires
            at_priority == self.plan.axis,
        ensures
            r == self.state.axis,
    {
        self.state.axis()
    }

    pub fn write_axis(&mut self, at_priority: u8, axis: Option<SelectedAxis>)
        requires
            at_priority == old(self).plan.axis,
        ensures
            final(self).state.axis == axis,
            final(self).state.is_estopped == old(self).state.is_estopped,
            final(self).state.multiplier == old(self).state.multiplier,
            final(self).plan == old(self).plan,
    {
        self.state.set_axis(axis);
    }
}

} // verus!
