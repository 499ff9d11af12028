//! The supervisor step machine on concrete transitions.

use updown_book::book::UpdateOutcome;
use updown_book::supervisor::step;
use updown_book::supervisor::LoopAction;
use updown_book::supervisor::LoopEvent;
use updown_book::supervisor::Phase;

#[test]
fn happy_path_reaches_streaming() {
    let (p, a) = step(Phase::Connecting, LoopEvent::TransportUp);
    assert_eq!(p, Phase::Subscribing);
    assert_eq!(a, LoopAction::SendSubscriptions);
    let (p, a) = step(p, LoopEvent::SubscriptionsSent);
    assert_eq!(p, Phase::Streaming);
    assert_eq!(a, LoopAction::Idle);
}

#[test]
fn failures_before_streaming_are_fatal() {
    let (p, a) = step(Phase::Connecting, LoopEvent::TransportFailed);
    assert_eq!(p, Phase::Stopped);
    assert_eq!(a, LoopAction::ReportFatal);
    let (p, a) = step(Phase::Subscribing, LoopEvent::SubscriptionFailed);
    assert_eq!(p, Phase::Stopped);
    assert_eq!(a, LoopAction::ReportFatal);
}

#[test]
fn shutdown_while_waiting_stops_in_one_step() {
    let (p, a) = step(Phase::Streaming, LoopEvent::ShutdownRequested);
    assert_eq!(p, Phase::Stopped);
    assert_eq!(a, LoopAction::Idle);
    // No further frame is processed: the stopped phase never acts again.
    let (p, a) = step(p, LoopEvent::FrameHandled(UpdateOutcome::Applied));
    assert_eq!(p, Phase::Stopped);
    assert_eq!(a, LoopAction::Idle);
}

#[test]
fn applied_frames_publish_while_streaming() {
    let (p, a) = step(Phase::Streaming, LoopEvent::FrameHandled(UpdateOutcome::Applied));
    assert_eq!(p, Phase::Streaming);
    assert_eq!(a, LoopAction::Publish);
    let (_, a) = step(Phase::Streaming, LoopEvent::FrameHandled(UpdateOutcome::NoChange));
    assert_eq!(a, LoopAction::Idle);
    let (_, a) = step(Phase::Streaming, LoopEvent::FrameHandled(UpdateOutcome::Ignored));
    assert_eq!(a, LoopAction::Idle);
}

#[test]
fn stream_end_is_a_normal_stop() {
    let (p, a) = step(Phase::Streaming, LoopEvent::StreamEnded);
    assert_eq!(p, Phase::Stopped);
    assert_eq!(a, LoopAction::Idle);
}
