//! The readiness handshake that a freshly spawned worker must complete.
use vstd::prelude::*;

use crate::event::{decode_event, event_of, Event, EventView, ReadOutcome};

verus! {

/// How long a new worker may take to announce that it is ready.
pub const READY_TIMEOUT_SECS: u64 = 30;

/// Why a persistent worker could not be brought up.
pub enum LaunchError {
    /// The process could not be spawned.
    Spawn(String),
    /// One of the process's standard streams could not be captured.
    StreamUnavailable(String),
    /// The worker reported a fatal error before it was ready.
    Worker(String),
    /// Reading the worker's output failed.
    ReadFailed(String),
    /// The worker's output closed before it was ready.
    ExitedBeforeReady,
    /// No `ready` event came within the readiness timeout.
    TimedOut,
}

/// What the handshake is fed: a read from the worker's output, or the
/// passing of the readiness deadline.
pub enum ReadyInput {
    Read(ReadOutcome),
    DeadlinePassed,
}

/// The state of the handshake after one input.
pub enum ReadyStep {
    Waiting,
    Ready,
    Failed(LaunchError),
}

/// One step of the readiness handshake. `ready` completes it, an `error`
/// event fails it with the event's message, the end of the stream and the
/// deadline fail it each with their own error, and every other line is
/// ignored.
pub fn ready_step(input: ReadyInput) -> (r: ReadyStep)
    ensures
        match input {
            ReadyInput::DeadlinePassed => r == ReadyStep::Failed(LaunchError::TimedOut),
            ReadyInput::Read(ReadOutcome::Closed) => r == ReadyStep::Failed(
                LaunchError::ExitedBeforeReady,
            ),
            ReadyInput::Read(ReadOutcome::Failed(e)) => r == ReadyStep::Failed(
                LaunchError::ReadFailed(e),
            ),
            ReadyInput::Read(ReadOutcome::Line(l)) => match event_of(l@) {
                Some(EventView::Ready) => r is Ready,
                Some(EventView::Error(m)) => r matches ReadyStep::Failed(LaunchError::Worker(w))
                    && w@ == m,
                _ => r is Waiting,
            },
        },
{
    match input {
        ReadyInput::DeadlinePassed => ReadyStep::Failed(LaunchError::TimedOut),
        ReadyInput::Read(ReadOutcome::Closed) => ReadyStep::Failed(LaunchError::ExitedBeforeReady),
        ReadyInput::Read(ReadOutcome::Failed(e)) => ReadyStep::Failed(LaunchError::ReadFailed(e)),
        ReadyInput::Read(ReadOutcome::Line(l)) => match decode_event(l.as_str()) {
            Some(Event::Ready) => ReadyStep::Ready,
            Some(Event::Error(m)) => ReadyStep::Failed(LaunchError::Worker(m)),
            _ => ReadyStep::Waiting,
        },
    }
}

pub open spec fn launch_error_text(e: LaunchError) -> Seq<char> {
    match e {
        LaunchError::Spawn(m) => "failed to start the worker: "@ + m@,
        LaunchError::StreamUnavailable(m) => "worker stream unavailable: "@ + m@,
        LaunchError::Worker(m) => "worker failed to initialise: "@ + m@,
        LaunchError::ReadFailed(m) => "failed to read the ready signal: "@ + m@,
        LaunchError::ExitedBeforeReady => "worker exited before ready"@,
        LaunchError::TimedOut => "worker did not become ready within the timeout (30s)"@,
    }
}

impl LaunchError {
    /// A description of the error for logs and callers.
    pub fn message(&self) -> (r: String)
        ensures
            r@ == launch_error_text(*self),
    {
        match self {
            LaunchError::Spawn(m) => String::from_str("failed to start the worker: ").concat(
                m.as_str(),
            ),
            LaunchError::StreamUnavailable(m) => String::from_str(
                "worker stream unavailable: ",
            ).concat(m.as_str()),
            LaunchError::Worker(m) => String::from_str("worker failed to initialise: ").concat(
                m.as_str(),
            ),
            LaunchError::ReadFailed(m) => String::from_str(
                "failed to read the ready signal: ",
            ).concat(m.as_str()),
            LaunchError::ExitedBeforeReady => String::from_str("worker exited before ready"),
            LaunchError::TimedOut => String::from_str(
                "worker did not become ready within the timeout (30s)",
            ),
        }
    }
}

} // verus!
