use futures_diagnose::absolute_time::{AbsoluteTime, ClockReading};
use futures_diagnose::ctxt_with_diag::CurrentTaskContext;
use futures_diagnose::fut_with_diag::{PollOutcome, TaskPhase};
use futures_diagnose::log_out::PollEvent;
use futures_diagnose::state::Diagnostics;
use futures_diagnose::{DiagSpawn, DiagnoseFuture, FutureExt};
use std::borrow::Cow;

fn reading(monotonic: u64, wall: u64) -> ClockReading {
    ClockReading { monotonic, wall: Some(wall) }
}

/// Polls `wrapper` once per entry of `script`, handing each entry in as what
/// the wrapped computation gave.
fn drive<T>(
    wrapper: &mut DiagnoseFuture<T>,
    context: &mut CurrentTaskContext,
    script: Vec<PollOutcome<u32>>,
    clock: &mut u64,
) -> (Vec<PollOutcome<u32>>, Vec<PollEvent>) {
    let mut outcomes = Vec::new();
    let mut events = Vec::new();
    for step in script {
        let before = *clock;
        let handle = wrapper.begin_poll(context, 99u8);
        assert_eq!(handle.identity(), wrapper.identity());
        assert_eq!(context.current().as_ref(), Some(wrapper.identity()));
        *clock += 10;
        let (outcome, event) = wrapper.finish_poll(context, before, *clock, step);
        outcomes.push(outcome);
        events.push(event);
    }
    (outcomes, events)
}

#[test]
fn ready_at_once_gives_one_event() {
    let mut state = Diagnostics::new();
    let mut context = CurrentTaskContext::new();
    let mut clock: u64 = 100;
    let mut wrapper = DiagnoseFuture::new((), "job-A", &mut state, reading(0, 5_000));
    let (outcomes, events) =
        drive(&mut wrapper, &mut context, vec![PollOutcome::Ready(1)], &mut clock);
    assert_eq!(outcomes, vec![PollOutcome::Ready(1)]);
    assert_eq!(events.len(), 1);
    assert!(events[0].is_first_poll);
    assert!(events[0].completed);
    assert_eq!(events[0].task_name, "job-A");
    assert_eq!(events[0].task_id, 0);
    assert_eq!(events[0].start, AbsoluteTime { nanos: 5_100, relative_only: false });
    assert_eq!(events[0].end, AbsoluteTime { nanos: 5_110, relative_only: false });
    assert_eq!(wrapper.phase(), TaskPhase::Completed);
}

#[test]
fn pending_then_ready_gives_two_events() {
    let mut state = Diagnostics::new();
    let mut context = CurrentTaskContext::new();
    let mut clock: u64 = 0;
    let mut wrapper = DiagnoseFuture::new((), "job-B", &mut state, reading(0, 0));
    assert_eq!(wrapper.phase(), TaskPhase::Fresh);
    assert!(wrapper.is_first_poll());
    let script = vec![PollOutcome::Pending, PollOutcome::Ready(42)];
    let (outcomes, events) = drive(&mut wrapper, &mut context, script, &mut clock);
    assert_eq!(outcomes, vec![PollOutcome::Pending, PollOutcome::Ready(42)]);
    assert_eq!(events.len(), 2);
    assert!(events[0].is_first_poll);
    assert!(!events[0].completed);
    assert!(!events[1].is_first_poll);
    assert!(events[1].completed);
    assert_eq!(events[0].end.nanos - events[0].start.nanos, 10);
    assert_eq!(events[1].start.nanos, 10);
}

#[test]
fn first_poll_is_reported_exactly_once() {
    let mut state = Diagnostics::new();
    let mut context = CurrentTaskContext::new();
    let mut clock: u64 = 0;
    let mut wrapper = DiagnoseFuture::new((), "long", &mut state, reading(0, 0));
    let script = vec![
        PollOutcome::Pending,
        PollOutcome::Pending,
        PollOutcome::Pending,
        PollOutcome::Pending,
        PollOutcome::Ready(0),
    ];
    let (_, events) = drive(&mut wrapper, &mut context, script, &mut clock);
    let flags: Vec<bool> = events.iter().map(|event| event.is_first_poll).collect();
    assert_eq!(flags, vec![true, false, false, false, false]);
    let done: Vec<bool> = events.iter().map(|event| event.completed).collect();
    assert_eq!(done, vec![false, false, false, false, true]);
}

#[test]
fn phases_move_forward_only() {
    let mut state = Diagnostics::new();
    let mut context = CurrentTaskContext::new();
    let mut wrapper = DiagnoseFuture::new((), "p", &mut state, reading(0, 0));
    assert_eq!(wrapper.phase(), TaskPhase::Fresh);
    wrapper.begin_poll(&mut context, ());
    wrapper.finish_poll(&mut context, 0, 1, PollOutcome::<u8>::Pending);
    assert_eq!(wrapper.phase(), TaskPhase::Polled);
    assert!(!wrapper.is_first_poll());
    wrapper.begin_poll(&mut context, ());
    wrapper.finish_poll(&mut context, 1, 2, PollOutcome::Ready(3u8));
    assert_eq!(wrapper.phase(), TaskPhase::Completed);
    wrapper.begin_poll(&mut context, ());
    let (outcome, event) = wrapper.finish_poll(&mut context, 2, 3, PollOutcome::<u8>::Pending);
    assert_eq!(outcome, PollOutcome::Pending);
    assert!(!event.completed);
    assert!(!event.is_first_poll);
    assert_eq!(wrapper.phase(), TaskPhase::Completed);
}

#[test]
fn wrapping_is_transparent() {
    let mut state = Diagnostics::new();
    let mut context = CurrentTaskContext::new();
    let mut clock: u64 = 0;
    let inner = vec![String::from("payload")];
    let mut wrapper = DiagnoseFuture::new(inner.clone(), "t", &mut state, reading(0, 0));
    assert_eq!(wrapper.inner(), &inner);
    let script = vec![PollOutcome::Pending, PollOutcome::Pending, PollOutcome::Ready(7)];
    let (outcomes, _) = drive(&mut wrapper, &mut context, script, &mut clock);
    assert_eq!(
        outcomes,
        vec![PollOutcome::Pending, PollOutcome::Pending, PollOutcome::Ready(7)]
    );
    assert_eq!(wrapper.inner(), &inner);
    assert_eq!(wrapper.into_inner(), inner);
}

#[test]
fn outcome_readiness() {
    assert!(PollOutcome::Ready(1).is_ready());
    assert!(!PollOutcome::<u8>::Pending.is_ready());
}

#[test]
fn wrapping_steps_the_counter_and_calibrates_once() {
    let mut state = Diagnostics::new();
    assert_eq!(state.ids.peek(), 0);
    assert_eq!(state.bridge.installed(), None);
    let first = DiagnoseFuture::new(1u8, "one", &mut state, reading(100, 1_100));
    let second =
        DiagnoseFuture::new(2u8, String::from("two"), &mut state, reading(200, 9_999));
    let third = DiagnoseFuture::with_name(3u8, Cow::Borrowed("three"), &mut state, reading(0, 0));
    assert_eq!(first.identity().id(), 0);
    assert_eq!(second.identity().id(), 1);
    assert_eq!(third.identity().id(), 2);
    assert_eq!(first.identity().name(), "one");
    assert_eq!(second.identity().name(), "two");
    assert_eq!(third.identity().name(), "three");
    assert_eq!(state.ids.peek(), 3);
    assert_eq!(first.calibration().offset(), 1_000);
    assert_eq!(second.calibration(), first.calibration());
    assert_eq!(third.calibration(), first.calibration());
    assert_eq!(state.bridge.installed(), Some(first.calibration()));
}

#[test]
fn events_without_wall_clock_are_relative_only() {
    let mut state = Diagnostics::new();
    let mut context = CurrentTaskContext::new();
    let mut wrapper =
        DiagnoseFuture::new((), "r", &mut state, ClockReading { monotonic: 5, wall: None });
    wrapper.begin_poll(&mut context, ());
    let (_, event) = wrapper.finish_poll(&mut context, 20, 35, PollOutcome::Ready(()));
    assert_eq!(event.start, AbsoluteTime { nanos: 20, relative_only: true });
    assert_eq!(event.end, AbsoluteTime { nanos: 35, relative_only: true });
}

#[test]
fn context_names_the_task_during_its_poll_only() {
    let mut state = Diagnostics::new();
    let mut context = CurrentTaskContext::new();
    let mut outer = DiagnoseFuture::new((), "outer", &mut state, reading(0, 0));
    let mut inner = DiagnoseFuture::new((), "inner", &mut state, reading(0, 0));
    assert_eq!(context.current(), None);
    let outer_handle = outer.begin_poll(&mut context, 1u8);
    assert_eq!(context.current().as_ref(), Some(outer.identity()));
    let inner_handle = inner.begin_poll(&mut context, outer_handle);
    assert_eq!(context.current().as_ref(), Some(inner.identity()));
    assert_eq!(inner_handle.identity(), inner.identity());
    assert_eq!(inner_handle.signal().identity(), outer.identity());
    inner.finish_poll(&mut context, 0, 1, PollOutcome::Ready(()));
    assert_eq!(context.current().as_ref(), Some(outer.identity()));
    outer.finish_poll(&mut context, 0, 2, PollOutcome::<()>::Pending);
    assert_eq!(context.current(), None);
    assert_eq!(inner_handle.wake().signal.wake().signal, 1u8);
}

#[test]
fn interleaved_tasks_keep_their_own_events() {
    let mut state = Diagnostics::new();
    let mut task_a = DiagnoseFuture::new((), "A", &mut state, reading(0, 0));
    let mut task_b = DiagnoseFuture::new((), "B", &mut state, reading(0, 0));
    let id_a = task_a.identity().id();
    let id_b = task_b.identity().id();
    assert_ne!(id_a, id_b);
    let mut worker_one = CurrentTaskContext::new();
    let mut worker_two = CurrentTaskContext::new();
    let mut events_a: Vec<PollEvent> = Vec::new();
    let mut events_b: Vec<PollEvent> = Vec::new();
    for round in 0..4u64 {
        let last = round == 3;
        task_a.begin_poll(&mut worker_one, ());
        task_b.begin_poll(&mut worker_two, ());
        assert_eq!(worker_one.current().as_ref(), Some(task_a.identity()));
        assert_eq!(worker_two.current().as_ref(), Some(task_b.identity()));
        let outcome_b = if last { PollOutcome::Ready(()) } else { PollOutcome::Pending };
        events_b.push(task_b.finish_poll(&mut worker_two, round * 10, round * 10 + 3, outcome_b).1);
        let outcome_a = if last { PollOutcome::Ready(()) } else { PollOutcome::Pending };
        events_a.push(task_a.finish_poll(&mut worker_one, round * 10, round * 10 + 5, outcome_a).1);
    }
    for (round, event) in events_a.iter().enumerate() {
        assert_eq!(event.task_name, "A");
        assert_eq!(event.task_id, id_a);
        assert_eq!(event.start.nanos, (round as i128) * 10);
        assert_eq!(event.is_first_poll, round == 0);
    }
    for (round, event) in events_b.iter().enumerate() {
        assert_eq!(event.task_name, "B");
        assert_eq!(event.task_id, id_b);
        assert_eq!(event.end.nanos, (round as i128) * 10 + 3);
        assert_eq!(event.completed, round == 3);
    }
}

#[test]
fn split_keeps_the_diagnostic_state() {
    let mut state = Diagnostics::new();
    let mut context = CurrentTaskContext::new();
    let mut wrapper = DiagnoseFuture::new(String::from("c"), "s", &mut state, reading(1, 2));
    wrapper.begin_poll(&mut context, ());
    wrapper.finish_poll(&mut context, 0, 1, PollOutcome::<()>::Pending);
    let identity = wrapper.identity().clone();
    let calibration = wrapper.calibration();
    let (inner, rest) = wrapper.split();
    assert_eq!(inner, "c");
    assert_eq!(rest.identity(), &identity);
    assert_eq!(rest.phase(), TaskPhase::Polled);
    assert_eq!(rest.calibration(), calibration);
}

#[test]
fn with_diagnostics_wraps_a_future() {
    let mut state = Diagnostics::new();
    let wrapper = std::future::ready(5u8).with_diagnostics("ext", &mut state, reading(0, 10));
    assert_eq!(wrapper.identity().name(), "ext");
    assert_eq!(wrapper.identity().id(), 0);
    assert_eq!(wrapper.phase(), TaskPhase::Fresh);
    assert_eq!(wrapper.calibration().offset(), 10);
    assert_eq!(state.ids.peek(), 1);
}

#[test]
fn spawner_wraps_units_under_fresh_identities() {
    let spawner = DiagSpawn::new(String::from("executor"));
    assert_eq!(spawner.inner(), "executor");
    let mut state = Diagnostics::new();
    let first = spawner.wrap_unit(10u8, &mut state, reading(0, 0));
    let second = spawner.wrap_unit(20u8, &mut state, reading(0, 0));
    assert_eq!(first.identity().name(), "unnamed");
    assert_eq!(first.identity().id(), 0);
    assert_eq!(second.identity().id(), 1);
    assert_eq!(first.into_inner(), 10);
    assert_eq!(second.phase(), TaskPhase::Fresh);
    assert_eq!(spawner.into_inner(), "executor");
}
