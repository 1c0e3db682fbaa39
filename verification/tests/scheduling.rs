use jog_pendant::axis::Axis;
use jog_pendant::encoder::{Direction, EncoderTracker};
use jog_pendant::errors::SchedulingError;
use jog_pendant::multiplier::{MultiplierPins, SelectedMultiplier};
use jog_pendant::sched::SchedulerCore;
use jog_pendant::store::{CeilingPlan, SharedStateStore, TaskDecl, compute_ceilings, is_highest_priority};
use jog_pendant::tasks::{DeadlineMonitor, SelectorPoller, display_refresh_step, selector_poll_step};

fn task_registry() -> Vec<TaskDecl> {
    vec![
        // Display refresh: lowest priority, reads every field.
        TaskDecl { priority: 1, touches_estopped: true, touches_multiplier: true, touches_axis: true },
        // Selector polling: middle priority, writes the two selections.
        TaskDecl { priority: 2, touches_estopped: false, touches_multiplier: true, touches_axis: true },
        // Estop handler: highest priority, owns the safety field.
        TaskDecl { priority: 3, touches_estopped: true, touches_multiplier: false, touches_axis: false },
    ]
}

#[test]
fn ceilings_are_field_maxima() {
    let plan = compute_ceilings(&task_registry());
    assert_eq!(plan, CeilingPlan { estopped: 3, multiplier: 2, axis: 2 });
}

#[test]
fn estop_outranks_every_task() {
    let registry = task_registry();
    assert!(is_highest_priority(&registry, 2));
    assert!(!is_highest_priority(&registry, 0));
    assert!(!is_highest_priority(&registry, 1));
}

#[test]
fn ceilings_empty_registry_are_zero() {
    let plan = compute_ceilings(&Vec::new());
    assert_eq!(plan, CeilingPlan { estopped: 0, multiplier: 0, axis: 0 });
}

#[test]
fn schedule_in_the_past_is_elapsed() {
    let mut s = SchedulerCore::new(100);
    let t = s.register(1);
    assert_eq!(s.schedule_at(t, 99), Err(SchedulingError::Elapsed));
    assert_eq!(s.pop_next(), None);
    // The present instant has not elapsed.
    assert_eq!(s.schedule_at(t, 100), Ok(()));
    assert_eq!(s.pop_next(), Some(t));
}

#[test]
fn nothing_due_before_its_instant() {
    let mut s = SchedulerCore::new(0);
    let t = s.register(1);
    assert_eq!(s.schedule_at(t, 5), Ok(()));
    assert_eq!(s.pop_next(), None);
    s.advance_to(5);
    assert_eq!(s.pop_next(), Some(t));
    assert_eq!(s.pop_next(), None);
}

#[test]
fn higher_priority_runs_first() {
    let mut s = SchedulerCore::new(0);
    let lo = s.register(1);
    let hi = s.register(3);
    assert_eq!(s.schedule_at(lo, 0), Ok(()));
    assert_eq!(s.schedule_at(hi, 0), Ok(()));
    assert_eq!(s.pop_next(), Some(hi));
    assert_eq!(s.pop_next(), Some(lo));
}

#[test]
fn equal_priority_earlier_instant_first() {
    let mut s = SchedulerCore::new(0);
    let a = s.register(2);
    let b = s.register(2);
    assert_eq!(s.schedule_at(a, 9), Ok(()));
    assert_eq!(s.schedule_at(b, 3), Ok(()));
    s.advance_to(10);
    assert_eq!(s.pop_next(), Some(b));
    assert_eq!(s.pop_next(), Some(a));
}

#[test]
fn equal_priority_same_instant_is_fifo() {
    let mut s = SchedulerCore::new(0);
    let a = s.register(2);
    let b = s.register(2);
    assert_eq!(s.schedule_at(b, 0), Ok(()));
    assert_eq!(s.schedule_at(a, 0), Ok(()));
    assert_eq!(s.schedule_at(b, 0), Ok(()));
    assert_eq!(s.pop_next(), Some(b));
    assert_eq!(s.pop_next(), Some(a));
    assert_eq!(s.pop_next(), Some(b));
}

#[test]
fn estop_storm_starves_display_never_the_reverse() {
    // An interrupt storm on the estop line, faster than the display
    // refresh period: the display task must never run between two estop
    // invocations while any estop invocation is still due.
    let mut s = SchedulerCore::new(0);
    let display = s.register(1);
    let estop = s.register(3);
    assert_eq!(s.schedule_at(display, 0), Ok(()));
    for _ in 0..8 {
        assert_eq!(s.schedule_at(estop, 0), Ok(()));
    }
    for _ in 0..8 {
        assert_eq!(s.pop_next(), Some(estop));
    }
    assert_eq!(s.pop_next(), Some(display));
    assert_eq!(s.pop_next(), None);
}

#[test]
fn display_step_rearms_exactly_once_on_success() {
    let plan = compute_ceilings(&task_registry());
    let store = SharedStateStore::new(plan);
    let mut s = SchedulerCore::new(0);
    let display = s.register(1);
    let mut enc = EncoderTracker::new(400, 0, 0);
    let sample = enc.sample(4, Direction::Up, 0);
    let before = s.pending_count();
    let (model, rearm) = display_refresh_step(&mut s, display, 0, 50, &store, 3, 2, 2, sample);
    assert_eq!(rearm, Ok(()));
    assert_eq!(s.pending_count(), before + 1);
    assert!(model.estopped);
    assert_eq!(model.multiplier, None);
    assert_eq!(model.axis, None);
    assert_eq!(model.sample.delta, 4);
    // The next invocation runs one period after the scheduled instant.
    s.advance_to(50);
    assert_eq!(s.pop_next(), Some(display));
}

#[test]
fn display_step_reports_elapsed_and_arms_nothing() {
    let plan = compute_ceilings(&task_registry());
    let store = SharedStateStore::new(plan);
    let mut s = SchedulerCore::new(0);
    let display = s.register(1);
    s.advance_to(1000);
    let mut enc = EncoderTracker::new(400, 0, 0);
    let sample = enc.sample(0, Direction::Up, 0);
    let before = s.pending_count();
    let (_, rearm) = display_refresh_step(&mut s, display, 900, 50, &store, 3, 2, 2, sample);
    assert_eq!(rearm, Err(SchedulingError::Elapsed));
    assert_eq!(s.pending_count(), before);
}

#[test]
fn selector_step_rearms_exactly_once_success_and_elapsed() {
    let plan = compute_ceilings(&task_registry());
    let mut store = SharedStateStore::new(plan);
    let mut s = SchedulerCore::new(0);
    let _display = s.register(1);
    let selector = s.register(2);
    let mut poller = SelectorPoller::new(2);
    let pins = MultiplierPins::new(false, false, false);
    let axis = Axis::new(false, false, false, false);
    let before = s.pending_count();
    let r1 = selector_poll_step(&mut s, selector, 0, 10, &mut store, 2, 2, &mut poller, pins, axis);
    assert_eq!(r1, Ok(()));
    assert_eq!(s.pending_count(), before + 1);
    s.advance_to(500);
    let r2 = selector_poll_step(&mut s, selector, 10, 10, &mut store, 2, 2, &mut poller, pins, axis);
    assert_eq!(r2, Err(SchedulingError::Elapsed));
    assert_eq!(s.pending_count(), before + 1);
}

#[test]
fn selector_commits_only_after_stable_readings() {
    let plan = compute_ceilings(&task_registry());
    let mut store = SharedStateStore::new(plan);
    let mut s = SchedulerCore::new(0);
    let _display = s.register(1);
    let selector = s.register(2);
    let mut poller = SelectorPoller::new(2);
    let idle_axis = Axis::new(false, false, false, false);
    let x10 = MultiplierPins::new(false, true, false);
    let bounce = MultiplierPins::new(true, false, false);

    // First poll of X10: not yet stable, nothing committed.
    selector_poll_step(&mut s, selector, 0, 10, &mut store, 2, 2, &mut poller, x10, idle_axis).unwrap();
    assert_eq!(store.read_multiplier(2), None);
    // Second identical poll: committed.
    s.advance_to(10);
    selector_poll_step(&mut s, selector, 10, 10, &mut store, 2, 2, &mut poller, x10, idle_axis).unwrap();
    assert_eq!(store.read_multiplier(2), Some(SelectedMultiplier::X10));
    // A single bounced poll must not change the committed selection.
    s.advance_to(20);
    selector_poll_step(&mut s, selector, 20, 10, &mut store, 2, 2, &mut poller, bounce, idle_axis).unwrap();
    assert_eq!(store.read_multiplier(2), Some(SelectedMultiplier::X10));
    // The estop field is never touched by the poller.
    assert!(store.read_estopped(3));
}

#[test]
fn deadline_monitor_escalates_after_limit() {
    let mut m = DeadlineMonitor::new(3);
    assert!(!m.record(Err(SchedulingError::Elapsed)));
    assert!(!m.record(Err(SchedulingError::Elapsed)));
    assert!(m.record(Err(SchedulingError::Elapsed)));
    // Still fatal while the misses continue.
    assert!(m.record(Err(SchedulingError::Elapsed)));
}

#[test]
fn deadline_monitor_resets_on_success() {
    let mut m = DeadlineMonitor::new(2);
    assert!(!m.record(Err(SchedulingError::Elapsed)));
    assert!(!m.record(Ok(())));
    assert!(!m.record(Err(SchedulingError::Elapsed)));
    assert!(m.record(Err(SchedulingError::Elapsed)));
}
