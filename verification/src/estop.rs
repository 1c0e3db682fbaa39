//! The emergency-stop path: the single safety-critical handler.
//!
//! The handler runs at the highest priority of any task in the system and
//! is triggered on either edge of the estop line. Because several edges
//! can coalesce before the handler executes, it never trusts which edge
//! fired: it re-reads the line level and stores that. Any failure to read
//! the line forces the fail-safe state. Clearing the hardware
//! interrupt-pending flag is the handler's last action, outside this core;
//! here an edge is an explicit, once-consumed event value.

use vstd::prelude::*;
use crate::store::SharedStateStore;

verus! {

/// A transient edge notification from the estop line, consumed exactly
/// once per hardware interrupt.
#[derive(Clone, Copy, Debug, PartialEq, Eq, Structural)]
pub enum EstopEvent {
    Rising,
    Falling,
}

/// The edge, if any, between two consecutive observed levels of the line.
pub open spec fn edge_between_spec(prev_level: bool, level: bool) -> Option<EstopEvent> {
    if !prev_level && level {
        Some(EstopEvent::Rising)
    } else if prev_level && !level {
        Some(EstopEvent::Falling)
    } else {
        None
    }
}

/// Detect the edge between two consecutive observed levels of the line.
pub fn edge_between(prev_level: bool, level: bool) -> (r: Option<EstopEvent>)
    ensures
        r == edge_between_spec(prev_level, level),
{
    if !prev_level && level {
        Some(EstopEvent::Rising)
    } else if prev_level && !level {
        Some(EstopEvent::Falling)
    } else {
        None
    }
}

/// The safety state one handler invocation commits: the asserted-level
/// reading just taken, or the fail-safe state when the read failed.
pub open spec fn estop_next(level_asserted: Option<bool>) -> bool {
    match level_asserted {
        Some(level) => level,
        None => true,
    }
}

/// The handler's transition ignores the previous state entirely: only the
/// fresh reading counts, so a coalesced burst of edges can never leave a
/// stale value behind.
pub open spec fn estop_step(state: bool, level_asserted: Option<bool>) -> bool {
    estop_next(level_asserted)
}

/// The safety state after a whole sequence of handler invocations, folded
/// from the fail-safe initial state.
pub open spec fn estop_fold(readings: Seq<Option<bool>>) -> bool
    decreases readings.len(),
{
    if readings.len() == 0 {
        true
    } else {
        estop_step(estop_fold(readings.drop_last()), readings.last())
    }
}

/// The safety state is never stale or delayed: after any sequence of edge
/// events it equals the asserted-level reading of the most recent event,
/// and before any event it is `true` (the fail-safe default).
pub proof fn lemma_estop_never_stale(readings: Seq<Option<bool>>)
    ensures
        estop_fold(readings) == if readings.len() == 0 {
            true
        } else {
            estop_next(readings.last())
        },
{
}

/// One invocation of the estop handler.
///
/// `level_asserted` is the level the handler re-read from the line:
/// `Some(true)` when the line reads asserted, `Some(false)` when it reads
/// released, `None` when the read itself failed — which is treated as
/// fatal and forces the fail-safe state before anything else may happen.
/// The handler performs no unbounded-time work and touches only the
/// safety field.
pub fn estop_invocation(
    store: &mut SharedStateStore,
    at_priority: u8,
    level_asserted: Option<bool>,
) -> (estopped: bool)
    requires
        at_priority == old(store).plan.estopped,
    ensures
        final(store).state.is_estopped == estop_step(
            old(store).state.is_estopped,
            level_asserted,
        ),
        estopped == final(store).state.is_estopped,
        final(store).state.multiplier == old(store).state.multiplier,
        final(store).state.axis == old(store).state.axis,
        final(store).plan == old(store).plan,
{
    let level = match level_asserted {
        Some(level) => level,
        None => true,
    };
    store.write_estopped(at_priority, level);
    level
}

/// Force the fail-safe state. Used on every fatal path — a failed estop
/// read, a failed interrupt clear, or a missed-deadline escalation —
/// before any attempted recovery.
pub fn force_safe_state(store: &mut SharedStateStore, at_priority: u8)
    requires
        at_priority == old(store).plan.estopped,
    ensures
        final(store).state.is_estopped,
        final(store).state.multiplier == old(store).state.multiplier,
        final(store).state.axis == old(store).state.axis,
        final(store).plan == old(store).plan,
{
    store.write_estopped(at_priority, true);
}

} // verus!
