//! The course of one call of a module's function.
//!
//! The engine runs its tasks one at a time, so a call's own result is final only after the
//! engine's task queue has been pumped until it is empty. The caller issues the call,
//! pumps the queue and awaits the result in the order that [`advance`] dictates.

use vstd::prelude::*;

verus! {

/// How far a call has come.
#[derive(Debug, Clone, Copy, PartialEq, Eq, Structural)]
pub enum CallPhase {
    /// The call has not been issued.
    Created,
    /// The call has been issued; the engine's task queue is being pumped.
    Draining,
    /// The task queue is empty; the call's own result is awaited.
    Awaiting,
    /// The call has succeeded or failed.
    Finished,
}

/// What happened to a call.
#[derive(Debug, Clone, PartialEq, Eq)]
pub enum CallEvent {
    /// The function was called.
    Issued,
    /// The task queue was pumped until it was empty.
    LoopDrained,
    /// Pumping the task queue failed, with the text of the error.
    LoopFailed(String),
    /// The call returned.
    Returned,
    /// The call threw, with the text of the error.
    Threw(String),
}

/// The mathematical content of a [`CallEvent`].
pub enum CallEventView {
    Issued,
    LoopDrained,
    LoopFailed(Seq<char>),
    Returned,
    Threw(Seq<char>),
}

impl View for CallEvent {
    type V = CallEventView;

    open spec fn view(&self) -> CallEventView {
        match self {
            CallEvent::Issued => CallEventView::Issued,
            CallEvent::LoopDrained => CallEventView::LoopDrained,
            CallEvent::LoopFailed(error) => CallEventView::LoopFailed(error@),
            CallEvent::Returned => CallEventView::Returned,
            CallEvent::Threw(error) => CallEventView::Threw(error@),
        }
    }
}

/// What the caller does next.
#[derive(Debug, Clone, PartialEq, Eq)]
pub enum CallAction {
    /// Pump the engine's task queue until it is empty.
    RunEventLoop,
    /// Await the call's own result.
    AwaitResult,
    /// Report success.
    Succeed,
    /// Report failure, with the text of the error.
    Fail(String),
    /// Nothing: the event does not belong to this phase.
    Ignore,
}

/// The mathematical content of a [`CallAction`].
pub enum CallActionView {
    RunEventLoop,
    AwaitResult,
    Succeed,
    Fail(Seq<char>),
    Ignore,
}

impl View for CallAction {
    type V = CallActionView;

    open spec fn view(&self) -> CallActionView {
        match self {
            CallAction::RunEventLoop => CallActionView::RunEventLoop,
            CallAction::AwaitResult => CallActionView::AwaitResult,
            CallAction::Succeed => CallActionView::Succeed,
            CallAction::Fail(error) => CallActionView::Fail(error@),
            CallAction::Ignore => CallActionView::Ignore,
        }
    }
}

/// The phase that follows `phase` on `event`, and what the caller does next. An event
/// that does not belong to the phase changes nothing.
pub open spec fn advanced(phase: CallPhase, event: CallEventView) -> (CallPhase, CallActionView) {
    match (phase, event) {
        (CallPhase::Created, CallEventView::Issued) => (
            CallPhase::Draining,
            CallActionView::RunEventLoop,
        ),
        (CallPhase::Draining, CallEventView::LoopDrained) => (
            CallPhase::Awaiting,
            CallActionView::AwaitResult,
        ),
        (CallPhase::Draining, CallEventView::LoopFailed(error)) => (
            CallPhase::Finished,
            CallActionView::Fail(error),
        ),
        (CallPhase::Awaiting, CallEventView::Returned) => (
            CallPhase::Finished,
            CallActionView::Succeed,
        ),
        (CallPhase::Awaiting, CallEventView::Threw(error)) => (
            CallPhase::Finished,
            CallActionView::Fail(error),
        ),
        _ => (phase, CallActionView::Ignore),
    }
}

/// Takes a call one step further.
pub fn advance(phase: CallPhase, event: CallEvent) -> (next: (CallPhase, CallAction))
    ensures
        (next.0, next.1@) == advanced(phase, event@),
{
    match (phase, event) {
        (CallPhase::Created, CallEvent::Issued) => (CallPhase::Draining, CallAction::RunEventLoop),
        (CallPhase::Draining, CallEvent::LoopDrained) => (
            CallPhase::Awaiting,
            CallAction::AwaitResult,
        ),
        (CallPhase::Draining, CallEvent::LoopFailed(error)) => (
            CallPhase::Finished,
            CallAction::Fail(error),
        ),
        (CallPhase::Awaiting, CallEvent::Returned) => (CallPhase::Finished, CallAction::Succeed),
        (CallPhase::Awaiting, CallEvent::Threw(error)) => (
            CallPhase::Finished,
            CallAction::Fail(error),
        ),
        (phase, _) => (phase, CallAction::Ignore),
    }
}

/// The phase reached from `phase` by the first `n` of the given events.
pub open spec fn phase_after(phase: CallPhase, events: Seq<CallEventView>, n: int) -> CallPhase
    decreases n,
{
    if n <= 0 {
        phase
    } else {
        advanced(phase_after(phase, events, n - 1), events[n - 1]).0
    }
}

/// A call succeeds only from the phase in which its result is awaited, and that phase is
/// entered only when the task queue has been pumped until it was empty. A finished call
/// ignores every event.
pub proof fn law_result_after_drain(phase: CallPhase, event: CallEventView)
    ensures
        advanced(phase, event).1 == CallActionView::Succeed ==> phase == CallPhase::Awaiting,
        advanced(phase, event).0 == CallPhase::Awaiting && phase != CallPhase::Awaiting ==> phase
            == CallPhase::Draining && event == CallEventView::LoopDrained,
        phase == CallPhase::Finished ==> advanced(phase, event) == (
            CallPhase::Finished,
            CallActionView::Ignore,
        ),
{
}

/// Whatever events arrive in whatever order, a call that reports success at the step
/// `n` has had its task queue pumped at an earlier step.
pub proof fn law_success_needs_drained_queue(events: Seq<CallEventView>, n: int)
    requires
        0 <= n < events.len(),
        advanced(phase_after(CallPhase::Created, events, n), events[n]).1
            == CallActionView::Succeed,
    ensures
        exists|k: int|
            0 <= k < n && events[k] == CallEventView::LoopDrained && phase_after(
                CallPhase::Created,
                events,
                k,
            ) == CallPhase::Draining,
{
    lemma_awaiting_was_drained(events, n);
}

/// A call whose result is awaited after `n` events has had its task queue pumped at an
/// earlier step.
proof fn lemma_awaiting_was_drained(events: Seq<CallEventView>, n: int)
    requires
        0 <= n <= events.len(),
        phase_after(CallPhase::Created, events, n) == CallPhase::Awaiting,
    ensures
        exists|k: int|
            0 <= k < n && events[k] == CallEventView::LoopDrained && phase_after(
                CallPhase::Created,
                events,
                k,
            ) == CallPhase::Draining,
    decreases n,
{
    if n > 0 {
        let before = phase_after(CallPhase::Created, events, n - 1);
        if before == CallPhase::Awaiting {
            lemma_awaiting_was_drained(events, n - 1);
        } else {
            assert(before == CallPhase::Draining && events[n - 1] == CallEventView::LoopDrained);
        }
    }
}

/// The status code and the error text that a native entry point hands back for the
/// outcome of a call.
pub open spec fn reported(action: CallActionView) -> (u8, Option<Seq<char>>) {
    match action {
        CallActionView::Fail(error) => (1, Some(error)),
        _ => (0, None),
    }
}

/// The status code and the error text for the last action of a call: one and the text
/// for a failure, zero and no text otherwise.
pub fn report(action: CallAction) -> (status: (u8, Option<String>))
    ensures
        status.0 == reported(action@).0,
        match status.1 {
            Some(text) => reported(action@).1 == Some(text@),
            None => reported(action@).1 is None,
        },
{
    match action {
        CallAction::Fail(error) => (1, Some(error)),
        _ => (0, None),
    }
}

} // verus!
