//! The readiness timing heuristic over simulated notification timelines.

use vigem_rust::errors::{BusError, ClientError, OsError};
use vigem_rust::readiness::{
    ready_step, ready_timeout_ms, wait_for_notifications_internal, ReadyState,
};
use vigem_rust::{PollOutcome, TimedEvent};

fn notif(at_ms: u64) -> TimedEvent {
    TimedEvent {
        at_ms,
        outcome: PollOutcome::Notification,
    }
}

#[test]
fn silence_means_ready_at_first_timeout() {
    // a source that emits nothing for 600ms: the wait returns at 500ms.
    let events: Vec<TimedEvent> = Vec::new();
    assert_eq!(wait_for_notifications_internal(&events, 1), (500, Ok(())));
    // one notification, but only after the first timeout has passed.
    let late = vec![notif(600)];
    assert_eq!(wait_for_notifications_internal(&late, 1), (500, Ok(())));
}

#[test]
fn one_early_notification_then_silence() {
    // one notification at t=100 and then nothing: ready at 100+250=350.
    let events = vec![notif(100)];
    assert_eq!(wait_for_notifications_internal(&events, 1), (350, Ok(())));
}

#[test]
fn steady_stream_defers_readiness_until_silence() {
    // notifications every 100ms from t=100 to t=1000: the wait never ends
    // while they keep coming, and ends 250ms after the last one.
    let events: Vec<TimedEvent> = (1..=10).map(|k| notif(k * 100)).collect();
    let (t, res) = wait_for_notifications_internal(&events, 1);
    assert_eq!(res, Ok(()));
    assert_eq!(t, 1250);
    assert!(events.iter().all(|e| t > e.at_ms));
}

#[test]
fn arrival_resets_the_stabilization_wait() {
    // 100, 300: the gap of 200 is under 250, so both count; ready at 550.
    let events = vec![notif(100), notif(300)];
    assert_eq!(wait_for_notifications_internal(&events, 1), (550, Ok(())));
    // 100, 400: the second misses the 350 deadline; ready at 350.
    let events = vec![notif(100), notif(400)];
    assert_eq!(wait_for_notifications_internal(&events, 1), (350, Ok(())));
}

#[test]
fn worker_failure_aborts_the_wait() {
    let err = BusError::WindowsAPIError(OsError { code: -5 });
    let events = vec![
        notif(100),
        TimedEvent {
            at_ms: 200,
            outcome: PollOutcome::Failure(err),
        },
    ];
    assert_eq!(
        wait_for_notifications_internal(&events, 1),
        (200, Err(ClientError::BusError(err)))
    );
}

#[test]
fn closed_channel_means_target_gone() {
    let events = vec![TimedEvent {
        at_ms: 50,
        outcome: PollOutcome::Closed,
    }];
    assert_eq!(
        wait_for_notifications_internal(&events, 9),
        (50, Err(ClientError::TargetDoesNotExist(9)))
    );
}

#[test]
fn step_machine_mirrors_the_timeline_decision() {
    // drive the incremental state machine by hand, as the live channel
    // loop does, over the one-notification-then-silence scenario.
    let mut state = ReadyState::AwaitingFirst;
    assert_eq!(ready_timeout_ms(&state), 500);
    state = ready_step(&state, Some(&PollOutcome::Notification), 1);
    assert_eq!(state, ReadyState::Stabilizing);
    assert_eq!(ready_timeout_ms(&state), 250);
    state = ready_step(&state, None, 1);
    assert_eq!(state, ReadyState::Ready);

    // a failure event aborts with the bus error.
    let err = BusError::VersionMismatch;
    let state = ready_step(
        &ReadyState::Stabilizing,
        Some(&PollOutcome::Failure(err)),
        1,
    );
    assert_eq!(state, ReadyState::Failed(ClientError::BusError(err)));

    // a closed channel marks the target gone.
    let state = ready_step(&ReadyState::AwaitingFirst, Some(&PollOutcome::Closed), 3);
    assert_eq!(
        state,
        ReadyState::Failed(ClientError::TargetDoesNotExist(3))
    );
}
