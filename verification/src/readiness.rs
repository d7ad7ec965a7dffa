//! The readiness heuristic for a freshly plugged target. The driver's own
//! wait-device-ready answer is not trusted, so readiness is inferred from
//! notification timing instead: wait up to a first timeout for any
//! notification at all; once one arrives, wait repeatedly up to a shorter
//! timeout, each arrival resetting the wait, and call the device ready the
//! first time that shorter wait passes in silence. This models "ready" as
//! silence after initial activity; it is a documented approximation, not a
//! protocol guarantee, and the two timeout values are part of the timing
//! contract downstream callers are tuned against.

use vstd::prelude::*;

verus! {

use crate::errors::{BusError, ClientError};

/// How long the wait for the very first notification lasts, in
/// milliseconds. Silence for this long after the plug means the driver
/// produced no chatter at all and the device is assumed quiescent and
/// ready.
pub const FIRST_NOTIFICATION_TIMEOUT_MS: u64 = 500;

/// How long each wait for a further notification lasts, in milliseconds.
/// Every arrival resets this wait; the first time it passes in silence the
/// device is considered stable and ready.
pub const STABILIZATION_TIMEOUT_MS: u64 = 250;

/// One thing a readiness wait can observe from its notification worker.
#[derive(Debug, Clone, Copy, PartialEq, Eq, Structural)]
pub enum PollOutcome {
    /// The worker delivered a notification; its content does not matter
    /// here, only its timing.
    Notification,
    /// The worker hit a decode or transport error and stopped.
    Failure(BusError),
    /// The worker's channel closed without a further sender.
    Closed,
}

/// One observation with the instant it arrived, in milliseconds from the
/// start of the wait.
#[derive(Debug, Clone, Copy, PartialEq, Eq, Structural)]
pub struct TimedEvent {
    /// When the observation arrived, in milliseconds from the start of the
    /// readiness wait.
    pub at_ms: u64,
    /// What arrived.
    pub outcome: PollOutcome,
}

/// Where a readiness wait stands.
#[derive(Debug, Clone, Copy, PartialEq, Eq, Structural)]
pub enum ReadyState {
    /// No notification yet; waiting out the first, longer timeout.
    AwaitingFirst,
    /// At least one notification arrived; waiting out the shorter timeout
    /// that every further arrival resets.
    Stabilizing,
    /// The wait decided the device is ready.
    Ready,
    /// The wait aborted with this error.
    Failed(ClientError),
}

/// How long the wait in `state` lasts before it times out, in milliseconds.
pub open spec fn spec_ready_timeout(state: ReadyState) -> u64 {
    match state {
        ReadyState::AwaitingFirst => FIRST_NOTIFICATION_TIMEOUT_MS,
        ReadyState::Stabilizing => STABILIZATION_TIMEOUT_MS,
        ReadyState::Ready => 0,
        ReadyState::Failed(_) => 0,
    }
}

/// Returns how long the wait in `state` lasts before it times out.
pub fn ready_timeout_ms(state: &ReadyState) -> (r: u64)
    ensures
        r == spec_ready_timeout(*state),
{
    match state {
        ReadyState::AwaitingFirst => FIRST_NOTIFICATION_TIMEOUT_MS,
        ReadyState::Stabilizing => STABILIZATION_TIMEOUT_MS,
        ReadyState::Ready => 0,
        ReadyState::Failed(_) => 0,
    }
}

/// How one observation (or a timeout, `None`) moves the readiness wait for
/// the target in slot `serial_no`: a timeout in either waiting state means
/// ready, a notification (re)enters the stabilizing wait, a worker failure
/// aborts with that error, and a closed channel means the target is gone.
pub open spec fn spec_ready_step(
    state: ReadyState,
    event: Option<PollOutcome>,
    serial_no: u32,
) -> ReadyState {
    match state {
        ReadyState::AwaitingFirst | ReadyState::Stabilizing => match event {
            None => ReadyState::Ready,
            Some(PollOutcome::Notification) => ReadyState::Stabilizing,
            Some(PollOutcome::Failure(e)) => ReadyState::Failed(ClientError::BusError(e)),
            Some(PollOutcome::Closed) => ReadyState::Failed(
                ClientError::TargetDoesNotExist(serial_no),
            ),
        },
        _ => state,
    }
}

/// Advances the readiness wait by one observation, or by a timeout when
/// `event` is `None`. The surrounding loop performs the actual channel
/// wait, bounded by [`ready_timeout_ms`], and feeds what it saw back here;
/// it stops once the state is `Ready` or `Failed`.
pub fn ready_step(state: &ReadyState, event: Option<&PollOutcome>, serial_no: u32) -> (r:
    ReadyState)
    ensures
        r == spec_ready_step(
            *state,
            match event {
                Some(o) => Some(*o),
                None => None::<PollOutcome>,
            },
            serial_no,
        ),
{
    match state {
        ReadyState::AwaitingFirst | ReadyState::Stabilizing => match event {
            None => ReadyState::Ready,
            Some(PollOutcome::Notification) => ReadyState::Stabilizing,
            Some(PollOutcome::Failure(e)) => ReadyState::Failed(ClientError::BusError(*e)),
            Some(PollOutcome::Closed) => ReadyState::Failed(
                ClientError::TargetDoesNotExist(serial_no),
            ),
        },
        ReadyState::Ready => ReadyState::Ready,
        ReadyState::Failed(e) => ReadyState::Failed(*e),
    }
}

/// What a readiness wait over a timeline of observations decides, starting
/// at observation `i` with the current wait expiring at `deadline`: the
/// instant the wait ends and its result. An observation counts for the
/// current wait exactly when it arrives no later than the deadline; the
/// first wait that passes with no observation means ready.
pub open spec fn spec_readiness_from(
    events: Seq<TimedEvent>,
    i: int,
    deadline: int,
    serial_no: u32,
) -> (int, Result<(), ClientError>)
    decreases events.len() - i,
{
    if i < 0 || i >= events.len() || events[i].at_ms > deadline {
        (deadline, Ok(()))
    } else {
        match events[i].outcome {
            PollOutcome::Notification => spec_readiness_from(
                events,
                i + 1,
                events[i].at_ms + STABILIZATION_TIMEOUT_MS,
                serial_no,
            ),
            PollOutcome::Failure(e) => (
                events[i].at_ms as int,
                Err(ClientError::BusError(e)),
            ),
            PollOutcome::Closed => (
                events[i].at_ms as int,
                Err(ClientError::TargetDoesNotExist(serial_no)),
            ),
        }
    }
}

/// What a readiness wait decides over a whole timeline: the first wait
/// lasts [`FIRST_NOTIFICATION_TIMEOUT_MS`]; every notification starts a
/// wait of [`STABILIZATION_TIMEOUT_MS`] from its own arrival.
pub open spec fn spec_readiness(events: Seq<TimedEvent>, serial_no: u32) -> (
    int,
    Result<(), ClientError>,
) {
    spec_readiness_from(events, 0, FIRST_NOTIFICATION_TIMEOUT_MS as int, serial_no)
}

/// Every observation arrives early enough that no deadline computation can
/// overflow the millisecond counter.
pub open spec fn spec_events_bounded(events: Seq<TimedEvent>) -> bool {
    forall|i: int|
        0 <= i < events.len() ==> #[trigger] events[i].at_ms <= u64::MAX
            - STABILIZATION_TIMEOUT_MS
}

/// A timeline is well formed when its observations are in arrival order —
/// as a channel delivers them — and bounded as above.
pub open spec fn spec_events_wf(events: Seq<TimedEvent>) -> bool {
    &&& forall|i: int, j: int|
        0 <= i <= j < events.len() ==> #[trigger] events[i].at_ms <= #[trigger] events[j].at_ms
    &&& spec_events_bounded(events)
}

/// Decides readiness over a timeline of observations for the target in
/// slot `serial_no`, returning the instant the wait ended and its result.
/// The timeline is what the notification worker's channel yielded, each
/// observation stamped with its arrival instant; the caller that drives a
/// live channel instead steps [`ready_step`] with the same rules and gets
/// the same decision.
pub fn wait_for_notifications_internal(events: &Vec<TimedEvent>, serial_no: u32) -> (r: (
    u64,
    Result<(), ClientError>,
))
    requires
        spec_events_bounded(events@),
    ensures
        (r.0 as int, r.1) == spec_readiness(events@, serial_no),
{
    let mut state = ReadyState::AwaitingFirst;
    let mut deadline: u64 = FIRST_NOTIFICATION_TIMEOUT_MS;
    let mut i: usize = 0;
    loop
        invariant
            spec_events_bounded(events@),
            i <= events@.len(),
            deadline <= u64::MAX,
            state == ReadyState::AwaitingFirst || state == ReadyState::Stabilizing,
            spec_readiness_from(events@, i as int, deadline as int, serial_no) == spec_readiness(
                events@,
                serial_no,
            ),
        decreases events@.len() - i,
    {
        if i >= events.len() || events[i].at_ms > deadline {
            state = ready_step(&state, None, serial_no);
            match state {
                ReadyState::Ready => {
                    return (deadline, Ok(()));
                },
                _ => {
                    proof {
                        assert(false);
                    }
                },
            }
        } else {
            let ev = events[i];
            state = ready_step(&state, Some(&ev.outcome), serial_no);
            match state {
                ReadyState::Stabilizing => {
                    deadline = ev.at_ms + STABILIZATION_TIMEOUT_MS;
                    i = i + 1;
                },
                ReadyState::Failed(e) => {
                    return (ev.at_ms, Err(e));
                },
                _ => {
                    proof {
                        assert(false);
                    }
                },
            }
        }
    }
}

/// While notifications keep arriving, the wait keeps waiting: on a
/// timeline of notifications whose first arrival beats the first timeout
/// and whose gaps never exceed the stabilization timeout, the wait ends
/// only one stabilization timeout after the final notification, strictly
/// later than every arrival, and ends in success.
pub proof fn lemma_readiness_outlasts_stream(events: Seq<TimedEvent>, serial_no: u32)
    requires
        spec_events_wf(events),
        events.len() >= 1,
        forall|i: int| 0 <= i < events.len() ==> events[i].outcome == PollOutcome::Notification,
        events[0].at_ms <= FIRST_NOTIFICATION_TIMEOUT_MS,
        forall|i: int|
            1 <= i < events.len() ==> events[i].at_ms <= #[trigger] events[i - 1].at_ms
                + STABILIZATION_TIMEOUT_MS,
    ensures
        spec_readiness(events, serial_no) == (
            events[events.len() - 1].at_ms + STABILIZATION_TIMEOUT_MS,
            Result::<(), ClientError>::Ok(()),
        ),
        forall|i: int|
            0 <= i < events.len() ==> spec_readiness(events, serial_no).0 > events[i].at_ms,
{
    lemma_stream_from(events, 0, FIRST_NOTIFICATION_TIMEOUT_MS as int, serial_no);
    assert forall|i: int| 0 <= i < events.len() implies spec_readiness(events, serial_no).0
        > events[i].at_ms by {
        assert(events[i].at_ms <= events[events.len() - 1].at_ms);
    }
}

/// The inductive heart of [`lemma_readiness_outlasts_stream`]: from any
/// reachable position whose pending observation still beats its deadline,
/// an all-notification tail with small gaps ends the wait one
/// stabilization timeout after the final arrival.
proof fn lemma_stream_from(events: Seq<TimedEvent>, i: int, deadline: int, serial_no: u32)
    requires
        spec_events_wf(events),
        0 <= i < events.len(),
        events[i].at_ms <= deadline,
        forall|j: int| i <= j < events.len() ==> events[j].outcome == PollOutcome::Notification,
        forall|j: int|
            i + 1 <= j < events.len() ==> events[j].at_ms <= #[trigger] events[j - 1].at_ms
                + STABILIZATION_TIMEOUT_MS,
    ensures
        spec_readiness_from(events, i, deadline, serial_no) == (
            events[events.len() - 1].at_ms + STABILIZATION_TIMEOUT_MS,
            Result::<(), ClientError>::Ok(()),
        ),
    decreases events.len() - i,
{
    if i == events.len() - 1 {
        assert(spec_readiness_from(
            events,
            i + 1,
            events[i].at_ms + STABILIZATION_TIMEOUT_MS,
            serial_no,
        ) == (
            events[i].at_ms + STABILIZATION_TIMEOUT_MS,
            Result::<(), ClientError>::Ok(()),
        ));
    } else {
        assert(events[i + 1].at_ms <= events[(i + 1) - 1].at_ms + STABILIZATION_TIMEOUT_MS);
        lemma_stream_from(
            events,
            i + 1,
            events[i].at_ms + STABILIZATION_TIMEOUT_MS,
            serial_no,
        );
    }
}

} // verus!
