//! The persistent path: one `execute` command, then a read loop that runs
//! until the worker's terminal `result` event.
use vstd::prelude::*;

use crate::event::{decode_event, event_of, Event, EventView, ReadOutcome};
use crate::wire::{decode_task_result, task_result_of, TaskResult};

verus! {

/// Why a request on the persistent worker failed.
pub enum ExecError {
    /// The context of the request is not JSON, so no command was written.
    BadContext,
    /// Writing or flushing the command failed.
    WriteFailed(String),
    /// Reading the worker's output failed.
    ReadFailed(String),
    /// The output closed before a `result` event: the worker crashed.
    Crashed,
    /// A `result` event came without its `data` member.
    MissingData,
    /// The `data` of a `result` event, which does not describe a task result.
    BadResult(String),
}

/// What the read loop does with one read.
pub enum ExecStep {
    /// Nothing: noise or protocol control. The loop goes on.
    Skip,
    /// Hand this line to the caller as progress. The loop goes on.
    Forward(String),
    /// The request is done with this result.
    Finish(TaskResult),
    /// The request failed.
    Fail(ExecError),
}

impl ExecStep {
    pub open spec fn ends_loop(self) -> bool {
        self is Finish || self is Fail
    }
}

/// One step of the persistent read loop.
pub fn exec_step(input: ReadOutcome) -> (r: ExecStep)
    ensures
        match input {
            ReadOutcome::Closed => r == ExecStep::Fail(ExecError::Crashed),
            ReadOutcome::Failed(e) => r == ExecStep::Fail(ExecError::ReadFailed(e)),
            ReadOutcome::Line(l) => match event_of(l@) {
                None => r is Skip,
                Some(EventView::Result(None)) => r == ExecStep::Fail(ExecError::MissingData),
                Some(EventView::Result(Some(d))) => match task_result_of(d) {
                    Some(t) => r matches ExecStep::Finish(res) && res@ == t,
                    None => r matches ExecStep::Fail(ExecError::BadResult(b)) && b@ == d,
                },
                Some(e) => if e.is_control() {
                    r is Skip
                } else {
                    r matches ExecStep::Forward(f) && f@ == l@
                },
            },
        },
        // Noise neither ends the loop nor reaches the caller.
        input matches ReadOutcome::Line(l) && event_of(l@).is_none() ==> r is Skip,
{
    match input {
        ReadOutcome::Closed => ExecStep::Fail(ExecError::Crashed),
        ReadOutcome::Failed(e) => ExecStep::Fail(ExecError::ReadFailed(e)),
        ReadOutcome::Line(l) => match decode_event(l.as_str()) {
            None => ExecStep::Skip,
            Some(Event::Ready) | Some(Event::Pong) | Some(Event::ShutdownAck) => ExecStep::Skip,
            Some(Event::Result(None)) => ExecStep::Fail(ExecError::MissingData),
            Some(Event::Result(Some(d))) => match decode_task_result(d.as_str()) {
                Some(t) => ExecStep::Finish(t),
                None => ExecStep::Fail(ExecError::BadResult(d)),
            },
            Some(_) => ExecStep::Forward(l),
        },
    }
}

pub open spec fn exec_error_text(e: ExecError) -> Seq<char> {
    match e {
        ExecError::BadContext => "the request context is not JSON"@,
        ExecError::WriteFailed(m) => "failed to write the command: "@ + m@,
        ExecError::ReadFailed(m) => "failed to read the response: "@ + m@,
        ExecError::Crashed => "worker crashed during the request"@,
        ExecError::MissingData => "result event without data"@,
        ExecError::BadResult(d) => "result data is not a task result: "@ + d@,
    }
}

impl ExecError {
    /// Whether this is the crash signal, which calls for a restart.
    pub fn is_crash(&self) -> (r: bool)
        ensures
            r == (*self is Crashed),
    {
        match self {
            ExecError::Crashed => true,
            _ => false,
        }
    }

    /// A description of the error for logs and callers.
    pub fn message(&self) -> (r: String)
        ensures
            r@ == exec_error_text(*self),
    {
        match self {
            ExecError::BadContext => String::from_str("the request context is not JSON"),
            ExecError::WriteFailed(m) => String::from_str("failed to write the command: ").concat(
                m.as_str(),
            ),
            ExecError::ReadFailed(m) => String::from_str("failed to read the response: ").concat(
                m.as_str(),
            ),
            ExecError::Crashed => String::from_str("worker crashed during the request"),
            ExecError::MissingData => String::from_str("result event without data"),
            ExecError::BadResult(d) => String::from_str(
                "result data is not a task result: ",
            ).concat(d.as_str()),
        }
    }
}

} // verus!
