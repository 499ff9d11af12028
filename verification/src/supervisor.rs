//! The data layer supervisor's state machine.
//!
//! The ingestion loop alternates outside work (connecting, subscribing,
//! awaiting the next frame or a shutdown request) with decisions.  Every
//! decision is the pure step function here: the surrounding task performs the
//! returned action and hands the next event back.

use vstd::prelude::*;

use crate::book::UpdateOutcome;

verus! {

/// Phase of the supervisor's lifecycle.
#[derive(Clone, Copy, Debug, PartialEq, Eq, Structural)]
pub enum Phase {
    /// Establishing the transport.
    Connecting,
    /// Transport up; sending the two subscription requests.
    Subscribing,
    /// Consuming inbound frames.
    Streaming,
    /// Terminal: the connection is released, nothing further happens.
    Stopped,
}

/// An event the surrounding loop observed.
#[derive(Clone, Copy, Debug, PartialEq, Eq, Structural)]
pub enum LoopEvent {
    /// The transport was established.
    TransportUp,
    /// The transport could not be established.
    TransportFailed,
    /// Both subscription requests were sent successfully.
    SubscriptionsSent,
    /// A subscription request could not be transmitted.
    SubscriptionFailed,
    /// An inbound frame was interpreted, with the given outcome.
    FrameHandled(UpdateOutcome),
    /// The inbound frame sequence ended without a shutdown request.
    StreamEnded,
    /// A shutdown was requested through the handle.
    ShutdownRequested,
}

/// What the surrounding loop must do after a step.
#[derive(Clone, Copy, Debug, PartialEq, Eq, Structural)]
pub enum LoopAction {
    /// Send the two subscription requests, one per instrument.
    SendSubscriptions,
    /// Publish a change signal to the subscribers.
    Publish,
    /// Report a fatal connection failure to the caller.
    ReportFatal,
    /// Nothing beyond awaiting the next event.
    Idle,
}

/// The transition table: next phase and required action for a phase and an
/// observed event.  A shutdown request stops the layer from any phase;
/// `Stopped` is terminal; an event that cannot occur in a phase is idle.
pub open spec fn step_view(phase: Phase, event: LoopEvent) -> (Phase, LoopAction) {
    match (phase, event) {
        (_, LoopEvent::ShutdownRequested) => (Phase::Stopped, LoopAction::Idle),
        (Phase::Connecting, LoopEvent::TransportUp) => (
            Phase::Subscribing,
            LoopAction::SendSubscriptions,
        ),
        (Phase::Connecting, LoopEvent::TransportFailed) => (
            Phase::Stopped,
            LoopAction::ReportFatal,
        ),
        (Phase::Subscribing, LoopEvent::SubscriptionsSent) => (Phase::Streaming, LoopAction::Idle),
        (Phase::Subscribing, LoopEvent::SubscriptionFailed) => (
            Phase::Stopped,
            LoopAction::ReportFatal,
        ),
        (Phase::Streaming, LoopEvent::FrameHandled(o)) => (
            Phase::Streaming,
            if o == UpdateOutcome::Applied {
                LoopAction::Publish
            } else {
                LoopAction::Idle
            },
        ),
        (Phase::Streaming, LoopEvent::StreamEnded) => (Phase::Stopped, LoopAction::Idle),
        _ => (phase, LoopAction::Idle),
    }
}

/// One supervisor step, exactly as [`step_view`] describes it.
pub fn step(phase: Phase, event: LoopEvent) -> (r: (Phase, LoopAction))
    ensures
        r == step_view(phase, event),
{
    match (phase, event) {
        (_, LoopEvent::ShutdownRequested) => (Phase::Stopped, LoopAction::Idle),
        (Phase::Connecting, LoopEvent::TransportUp) => (
            Phase::Subscribing,
            LoopAction::SendSubscriptions,
        ),
        (Phase::Connecting, LoopEvent::TransportFailed) => (
            Phase::Stopped,
            LoopAction::ReportFatal,
        ),
        (Phase::Subscribing, LoopEvent::SubscriptionsSent) => (Phase::Streaming, LoopAction::Idle),
        (Phase::Subscribing, LoopEvent::SubscriptionFailed) => (
            Phase::Stopped,
            LoopAction::ReportFatal,
        ),
        (Phase::Streaming, LoopEvent::FrameHandled(o)) => (
            Phase::Streaming,
            if o == UpdateOutcome::Applied {
                LoopAction::Publish
            } else {
                LoopAction::Idle
            },
        ),
        (Phase::Streaming, LoopEvent::StreamEnded) => (Phase::Stopped, LoopAction::Idle),
        (p, _) => (p, LoopAction::Idle),
    }
}

/// A shutdown request observed in any phase — in particular while the loop
/// is suspended waiting for a frame — stops the layer in that one step, with
/// no further frame processed and no signal published.
pub proof fn lemma_shutdown_immediate(phase: Phase)
    ensures
        step_view(phase, LoopEvent::ShutdownRequested).0 == Phase::Stopped,
        step_view(phase, LoopEvent::ShutdownRequested).1 == LoopAction::Idle,
{
}

/// `Stopped` is terminal: no event moves the supervisor out of it or makes
/// it act again.
pub proof fn lemma_stopped_terminal(event: LoopEvent)
    ensures
        step_view(Phase::Stopped, event).0 == Phase::Stopped,
        step_view(Phase::Stopped, event).1 != LoopAction::Publish,
        step_view(Phase::Stopped, event).1 != LoopAction::SendSubscriptions,
{
}

/// A signal is published exactly for a frame that was applied while
/// streaming: no other phase or outcome ever publishes.
pub proof fn lemma_publish_only_applied(phase: Phase, event: LoopEvent)
    ensures
        step_view(phase, event).1 == LoopAction::Publish <==> (phase == Phase::Streaming
            && event == LoopEvent::FrameHandled(UpdateOutcome::Applied)),
{
}

} // verus!
