use jog_pendant::axis::SelectedAxis;
use jog_pendant::estop::{EstopEvent, edge_between, estop_invocation, force_safe_state};
use jog_pendant::multiplier::SelectedMultiplier;
use jog_pendant::pendant::Pendant;
use jog_pendant::store::{CeilingPlan, SharedStateStore};

fn plan() -> CeilingPlan {
    CeilingPlan { estopped: 3, multiplier: 2, axis: 2 }
}

#[test]
fn pendant_initial_state_is_fail_safe() {
    let p = Pendant::new();
    assert!(p.estopped());
    assert_eq!(p.multiplier(), None);
    assert_eq!(p.axis(), None);
}

#[test]
fn pendant_fields_mutate_independently() {
    let mut p = Pendant::new();
    p.clear_estop();
    assert!(!p.estopped());
    p.set_multiplier(Some(SelectedMultiplier::X10));
    assert!(!p.estopped());
    assert_eq!(p.multiplier(), Some(SelectedMultiplier::X10));
    p.set_axis(Some(SelectedAxis::Z));
    assert_eq!(p.multiplier(), Some(SelectedMultiplier::X10));
    assert_eq!(p.axis(), Some(SelectedAxis::Z));
    p.set_estop();
    assert!(p.estopped());
    assert_eq!(p.multiplier(), Some(SelectedMultiplier::X10));
    assert_eq!(p.axis(), Some(SelectedAxis::Z));
}

#[test]
fn estopped_before_any_event_is_true() {
    let store = SharedStateStore::new(plan());
    assert!(store.read_estopped(3));
}

#[test]
fn estopped_equals_most_recent_reading() {
    let mut store = SharedStateStore::new(plan());
    for levels in [
        vec![false],
        vec![true, false],
        vec![false, true],
        vec![true, true, false, false, true],
        vec![false, false, false],
    ] {
        let last = *levels.last().unwrap();
        for level in levels {
            estop_invocation(&mut store, 3, Some(level));
        }
        assert_eq!(store.read_estopped(3), last);
    }
}

#[test]
fn estop_read_failure_forces_safe_state() {
    let mut store = SharedStateStore::new(plan());
    estop_invocation(&mut store, 3, Some(false));
    assert!(!store.read_estopped(3));
    assert!(estop_invocation(&mut store, 3, None));
    assert!(store.read_estopped(3));
}

#[test]
fn coalesced_edges_leave_no_stale_state() {
    // However many edges coalesced before the handler ran, only the
    // re-read level counts.
    let mut store = SharedStateStore::new(plan());
    estop_invocation(&mut store, 3, Some(true));
    estop_invocation(&mut store, 3, Some(true));
    assert!(store.read_estopped(3));
    estop_invocation(&mut store, 3, Some(false));
    assert!(!store.read_estopped(3));
}

#[test]
fn estop_invocation_touches_only_the_safety_field() {
    let mut store = SharedStateStore::new(plan());
    store.write_multiplier(2, Some(SelectedMultiplier::X100));
    store.write_axis(2, Some(SelectedAxis::A));
    estop_invocation(&mut store, 3, Some(false));
    assert_eq!(store.read_multiplier(2), Some(SelectedMultiplier::X100));
    assert_eq!(store.read_axis(2), Some(SelectedAxis::A));
}

#[test]
fn forcing_safe_state_sets_estopped() {
    let mut store = SharedStateStore::new(plan());
    estop_invocation(&mut store, 3, Some(false));
    force_safe_state(&mut store, 3);
    assert!(store.read_estopped(3));
}

#[test]
fn edges_between_levels() {
    assert_eq!(edge_between(false, true), Some(EstopEvent::Rising));
    assert_eq!(edge_between(true, false), Some(EstopEvent::Falling));
    assert_eq!(edge_between(true, true), None);
    assert_eq!(edge_between(false, false), None);
}

#[test]
fn store_writes_are_field_scoped() {
    let mut store = SharedStateStore::new(plan());
    store.write_estopped(3, false);
    store.write_multiplier(2, Some(SelectedMultiplier::X1));
    store.write_axis(2, Some(SelectedAxis::X));
    assert!(!store.read_estopped(3));
    store.write_axis(2, None);
    assert!(!store.read_estopped(3));
    assert_eq!(store.read_multiplier(2), Some(SelectedMultiplier::X1));
    assert_eq!(store.read_axis(2), None);
}
