//! Bounded dispatch of callbacks: what handing a job over, running it and
//! joining it lead to.

use vstd::prelude::*;

use crate::config::Interval;
use crate::health::{HealthErrorKind, LogEntry};

verus! {

/// What became of a callback job that was handed to the bounded queue.
#[derive(Clone, Copy, Debug, PartialEq, Eq, Structural)]
pub enum SubmitOutcome {
    /// The queue took the job.
    Queued,
    /// The queue had no room.
    Full,
    /// Nobody reads the queue any more.
    Disconnected,
}

/// The error that handing a job over leaves behind, if any.
pub open spec fn submit_entry(outcome: SubmitOutcome) -> Option<LogEntry> {
    match outcome {
        SubmitOutcome::Queued => None,
        SubmitOutcome::Full => Some(
            LogEntry {
                kind: HealthErrorKind::DispatchBackpressure,
                detail: "callback queue is full"@,
            },
        ),
        SubmitOutcome::Disconnected => Some(
            LogEntry {
                kind: HealthErrorKind::DispatchBackpressure,
                detail: "callback queue is disconnected"@,
            },
        ),
    }
}

/// Text of the error that handing a job over leaves behind, if any.
pub fn submit_detail(outcome: SubmitOutcome) -> (detail: Option<&'static str>)
    ensures
        detail is Some <==> submit_entry(outcome) is Some,
        detail is Some ==> detail->Some_0@ == submit_entry(outcome)->Some_0.detail,
{
    match outcome {
        SubmitOutcome::Queued => None,
        SubmitOutcome::Full => Some("callback queue is full"),
        SubmitOutcome::Disconnected => Some("callback queue is disconnected"),
    }
}

/// What the dispatcher does next with a running callback.
#[derive(Clone, Copy, Debug, PartialEq, Eq, Structural)]
pub enum CallbackStep {
    /// Look again after the given time, or earlier when the transport stops.
    Wait(Interval),
    /// Cancel the callback, then collect its result.
    Abort,
    /// Collect the result of the callback.
    Join,
}

/// A finished callback is joined, an unfinished one is cancelled once the
/// transport stops and otherwise looked at every 10 ms.
pub open spec fn callback_progress(finished: bool, stopped: bool) -> CallbackStep {
    if finished {
        CallbackStep::Join
    } else if stopped {
        CallbackStep::Abort
    } else {
        CallbackStep::Wait(Interval { secs: 0, nanos: 10_000_000 })
    }
}

/// Decides what to do with a running callback.
pub fn callback_step(finished: bool, stopped: bool) -> (step: CallbackStep)
    ensures
        step == callback_progress(finished, stopped),
{
    if finished {
        CallbackStep::Join
    } else if stopped {
        CallbackStep::Abort
    } else {
        CallbackStep::Wait(Interval { secs: 0, nanos: 10_000_000 })
    }
}

/// The error that a callback which panicked leaves behind.
pub open spec fn callback_panic_entry() -> LogEntry {
    LogEntry { kind: HealthErrorKind::CallbackPanic, detail: "listener callback panicked"@ }
}

/// Once a transport stops, no callback is waited for any longer.
pub proof fn law_stop_ends_callbacks(finished: bool)
    ensures
        !(callback_progress(finished, true) is Wait),
        callback_progress(finished, true) is Join <==> finished,
{
}

/// A job that the queue took leaves no error behind; one that it did not take
/// leaves one error of bounded dispatch, which says whether the queue was full
/// or abandoned.
pub proof fn law_only_lost_jobs_are_recorded(outcome: SubmitOutcome)
    ensures
        submit_entry(outcome) is None <==> outcome is Queued,
        submit_entry(outcome) is Some ==> submit_entry(outcome)->Some_0.kind
            == HealthErrorKind::DispatchBackpressure,
        outcome is Full ==> submit_entry(outcome)->Some_0.detail == "callback queue is full"@,
        outcome is Disconnected ==> submit_entry(outcome)->Some_0.detail
            == "callback queue is disconnected"@,
{
}

/// A finished callback is joined whether or not the transport stops; an
/// unfinished one is looked at again after 10 ms, or cancelled once it stops.
pub proof fn law_callbacks_are_watched(stopped: bool)
    ensures
        callback_progress(true, stopped) is Join,
        stopped ==> callback_progress(false, stopped) is Abort,
        !stopped ==> (callback_progress(false, stopped) matches CallbackStep::Wait(interval)
            && interval.length() == 10_000_000),
{
}

/// A panicked callback is recorded as such and as nothing else.
pub proof fn law_panics_are_recorded_as_panics(entry: LogEntry)
    requires
        entry == callback_panic_entry(),
    ensures
        entry.kind == HealthErrorKind::CallbackPanic,
        entry.detail == "listener callback panicked"@,
{
}

} // verus!
