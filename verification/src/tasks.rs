//! The periodic tasks' decision logic.
//!
//! Each periodic task invocation must re-arm its own next invocation
//! exactly once before returning, on every exit path — failing to do so is
//! a permanent-stall bug. The steps here compute everything a task decides
//! in one invocation from plain values; the hardware reads and the display
//! bus transaction happen outside, around these calls.

use vstd::prelude::*;
use crate::axis::{
    Axis, SelectedAxis, axis_code, axis_code_spec, axis_from_code, axis_from_code_spec,
    axis_resolution,
};
use crate::encoder::EncoderSample;
use crate::errors::SchedulingError;
use crate::multiplier::{
    MultiplierPins, SelectedMultiplier, multiplier_code, multiplier_code_spec,
    multiplier_from_code, multiplier_from_code_spec, multiplier_resolution,
};
use crate::sched::{ArmedTask, SchedulerCore};
use crate::selector::Debouncer;
use crate::store::SharedStateStore;

verus! {

/// The scheduler changed by exactly one arming of `task` at `due` — the
/// shape every periodic invocation must leave behind, whatever else the
/// invocation did. When `due` has already elapsed nothing is armed and the
/// error is reported, for the caller to escalate.
pub open spec fn rearmed_exactly_once(
    pre: SchedulerCore,
    post: SchedulerCore,
    task: usize,
    due: int,
    r: Result<(), SchedulingError>,
) -> bool {
    &&& post.priorities@ == pre.priorities@
    &&& post.now == pre.now
    &&& if due < pre.now {
        &&& r == Err::<(), SchedulingError>(SchedulingError::Elapsed)
        &&& post.pending@ == pre.pending@
        &&& post.next_seq == pre.next_seq
    } else {
        &&& r == Ok::<(), SchedulingError>(())
        &&& post.pending@ == pre.pending@.push(
            ArmedTask { task, at: due as u64, seq: pre.next_seq },
        )
        &&& post.next_seq == pre.next_seq + 1
    }
}

/// The immutable model one display refresh hands to the external renderer.
#[derive(Clone, Copy, Debug, PartialEq, Eq, Structural)]
pub struct RenderModel {
    pub estopped: bool,
    pub multiplier: Option<SelectedMultiplier>,
    pub axis: Option<SelectedAxis>,
    pub sample: EncoderSample,
}

/// Debounce state for the two selectors, local to the polling task.
#[derive(Clone, Copy, Debug, PartialEq, Eq, Structural)]
pub struct SelectorPoller {
    pub multiplier: Debouncer,
    pub axis: Debouncer,
}

impl SelectorPoller {
    pub open spec fn wf(self) -> bool {
        &&& self.multiplier.wf()
        &&& self.axis.wf()
    }

    /// Fresh debounce state: nothing polled yet, no selection committed.
    pub fn new(threshold: u8) -> (r: SelectorPoller)
        requires
            threshold >= 1,
        ensures
            r.wf(),
            r.multiplier.committed == 0,
            r.multiplier.stable == 0,
            r.multiplier.threshold == threshold,
            r.axis.committed == 0,
            r.axis.stable == 0,
            r.axis.threshold == threshold,
    {
        SelectorPoller { multiplier: Debouncer::new(threshold, 0), axis: Debouncer::new(threshold, 0) }
    }
}

/// One invocation of the selector polling task.
///
/// Resolves both selectors from the raw pin readings by the fixed
/// tie-break order, feeds each resolution through its debouncer, commits
/// the debounced readings to the store under the fields' ceilings — the
/// safety field is never touched — and re-arms its own next invocation
/// exactly once, whatever the readings were.
pub fn selector_poll_step(
    sched: &mut SchedulerCore,
    task: usize,
    scheduled: u64,
    period: u64,
    store: &mut SharedStateStore,
    at_multiplier: u8,
    at_axis: u8,
    poller: &mut SelectorPoller,
    multiplier_pins: MultiplierPins,
    axis_pins: Axis,
) -> (r: Result<(), SchedulingError>)
    requires
        old(sched).wf(),
        task < old(sched).priorities@.len(),
        old(sched).next_seq < u64::MAX,
        scheduled + period <= u64::MAX,
        old(poller).wf(),
        at_multiplier == old(store).plan.multiplier,
        at_axis == old(store).plan.axis,
    ensures
        final(sched).wf(),
        final(poller).wf(),
        final(poller).multiplier == old(poller).multiplier.poll_transition(
            multiplier_code_spec(
                multiplier_resolution(multiplier_pins.x1, multiplier_pins.x10, multiplier_pins.x100),
            ),
        ),
        final(poller).axis == old(poller).axis.poll_transition(
            axis_code_spec(
                axis_resolution(axis_pins.x, axis_pins.y, axis_pins.z, axis_pins.a),
            ),
        ),
        final(store).state.multiplier == multiplier_from_code_spec(
            final(poller).multiplier.committed,
        ),
        final(store).state.axis == axis_from_code_spec(final(poller).axis.committed),
        final(store).state.is_estopped == old(store).state.is_estopped,
        final(store).plan == old(store).plan,
        rearmed_exactly_once(*old(sched), *final(sched), task, scheduled + period, r),
{
    let raw_multiplier = multiplier_code(multiplier_pins.selection());
    let committed_multiplier = poller.multiplier.poll(raw_multiplier);
    store.write_multiplier(at_multiplier, multiplier_from_code(committed_multiplier));

    let raw_axis = axis_code(axis_pins.axis());
    let committed_axis = poller.axis.poll(raw_axis);
    store.write_axis(at_axis, axis_from_code(committed_axis));

    sched.schedule_at(task, scheduled + period)
}

/// One invocation of the display refresh task.
///
/// Snapshots the pendant state under each field's ceiling, assembles the
/// immutable render model around the encoder sample taken this period, and
/// re-arms its own next invocation exactly once. The model is handed
/// outward after this step; if the renderer then reports a transient
/// failure the frame is dropped and the next scheduled period tries again
/// — the re-arm has already happened, so no renderer outcome can stall the
/// task, and no retry may run inside the invocation.
pub fn display_refresh_step(
    sched: &mut SchedulerCore,
    task: usize,
    scheduled: u64,
    period: u64,
    store: &SharedStateStore,
    at_estopped: u8,
    at_multiplier: u8,
    at_axis: u8,
    sample: EncoderSample,
) -> (r: (RenderModel, Result<(), SchedulingError>))
    requires
        old(sched).wf(),
        task < old(sched).priorities@.len(),
        old(sched).next_seq < u64::MAX,
        scheduled + period <= u64::MAX,
        at_estopped == store.plan.estopped,
        at_multiplier == store.plan.multiplier,
        at_axis == store.plan.axis,
    ensures
        final(sched).wf(),
        r.0 == (RenderModel {
            estopped: store.state.is_estopped,
            multiplier: store.state.multiplier,
            axis: store.state.axis,
            sample,
        }),
        rearmed_exactly_once(*old(sched), *final(sched), task, scheduled + period, r.1),
{
    let model = RenderModel {
        estopped: store.read_estopped(at_estopped),
        multiplier: store.read_multiplier(at_multiplier),
        axis: store.read_axis(at_axis),
        sample,
    };
    let rearmed = sched.schedule_at(task, scheduled + period);
    (model, rearmed)
}

/// Tracks consecutive missed deadlines of one periodic task.
///
/// A single `Elapsed` is recoverable; `limit` consecutive ones mean the
/// scheduler can no longer keep its real-time guarantees, and the owner
/// must force the safe state before anything else.
#[derive(Clone, Copy, Debug, PartialEq, Eq, Structural)]
pub struct DeadlineMonitor {
    pub consecutive: u8,
    pub limit: u8,
}

impl DeadlineMonitor {
    pub open spec fn wf(self) -> bool {
        &&& self.limit >= 1
        &&& self.consecutive <= self.limit
    }

    pub fn new(limit: u8) -> (r: DeadlineMonitor)
        requires
            limit >= 1,
        ensures
            r.wf(),
            r.consecutive == 0,
            r.limit == limit,
    {
        DeadlineMonitor { consecutive: 0, limit }
    }

    /// Record one re-arm outcome. Returns whether the miss is fatal: the
    /// count of consecutive misses has reached the limit, and the caller
    /// must escalate by forcing the safe state.
    pub fn record(&mut self, outcome: Result<(), SchedulingError>) -> (fatal: bool)
        requires
            old(self).wf(),
        ensures
            final(self).wf(),
            final(self).limit == old(self).limit,
            final(self).consecutive == if outcome is Ok {
                0u8
            } else if old(self).consecutive < old(self).limit {
                (old(self).consecutive + 1) as u8
            } else {
                old(self).limit
            },
            fatal == (final(self).consecutive >= final(self).limit),
    {
        match outcome {
            Ok(_) => {
                self.consecutive = 0;
            },
            Err(_) => {
                if self.consecutive < self.limit {
                    self.consecutive = self.consecutive + 1;
                }
            },
        }
        self.consecutive >= self.limit
    }
}

} // verus!
