//! Events that the worker writes, one JSON object per line, told apart by
//! their `type` member.
use vstd::prelude::*;

use crate::json::{json_member_text, json_str_member, member_text, opt_view, str_member};
use crate::text::same_text;

verus! {

/// A decoded worker event. `Ready`, `Pong` and `ShutdownAck` are protocol
/// control; every tag that the protocol does not name is progress, kept as
/// the line that carried it.
pub enum Event {
    Ready,
    Pong,
    ShutdownAck,
    Error(String),
    Result(Option<String>),
    Progress(String),
}

pub enum EventView {
    Ready,
    Pong,
    ShutdownAck,
    Error(Seq<char>),
    Result(Option<Seq<char>>),
    Progress(Seq<char>),
}

impl View for Event {
    type V = EventView;

    open spec fn view(&self) -> EventView {
        match self {
            Event::Ready => EventView::Ready,
            Event::Pong => EventView::Pong,
            Event::ShutdownAck => EventView::ShutdownAck,
            Event::Error(m) => EventView::Error(m@),
            Event::Result(d) => EventView::Result(opt_view(*d)),
            Event::Progress(l) => EventView::Progress(l@),
        }
    }
}

impl EventView {
    pub open spec fn is_control(self) -> bool {
        self is Ready || self is Pong || self is ShutdownAck
    }
}

/// What one read from the worker's output stream gave: a line, the end of
/// the stream (zero bytes), or a read error.
pub enum ReadOutcome {
    Line(String),
    Closed,
    Failed(String),
}

/// The message of an `error` event that does not give one.
pub open spec fn unknown_error() -> Seq<char> {
    "unknown error"@
}

/// The `type` of the event on `line`: a non-empty string member. A line that
/// is not JSON, or has no such member, has none.
pub open spec fn event_tag(line: Seq<char>) -> Option<Seq<char>> {
    match json_str_member(line, "type"@) {
        Some(t) => if t.len() > 0 {
            Some(t)
        } else {
            None
        },
        None => None,
    }
}

/// The event that `line` carries, if it carries one.
pub open spec fn event_of(line: Seq<char>) -> Option<EventView> {
    match event_tag(line) {
        None => None,
        Some(t) => Some(
            if t == "ready"@ {
                EventView::Ready
            } else if t == "pong"@ {
                EventView::Pong
            } else if t == "shutdown_ack"@ {
                EventView::ShutdownAck
            } else if t == "error"@ {
                EventView::Error(
                    match json_str_member(line, "message"@) {
                        Some(m) => m,
                        None => unknown_error(),
                    },
                )
            } else if t == "result"@ {
                EventView::Result(json_member_text(line, "data"@))
            } else {
                EventView::Progress(line)
            },
        ),
    }
}

/// Reads the event on one line of worker output. Lines that are not JSON, or
/// carry no `type`, give `None`: they are noise, not errors.
pub fn decode_event(line: &str) -> (r: Option<Event>)
    ensures
        match r {
            Some(e) => event_of(line@) == Some(e@),
            None => event_of(line@).is_none(),
        },
{
    let tag = match str_member(line, "type") {
        Some(t) => t,
        None => {
            return None;
        },
    };
    let tag = tag.as_str();
    if tag.unicode_len() == 0 {
        return None;
    }
    if same_text(tag, "ready") {
        Some(Event::Ready)
    } else if same_text(tag, "pong") {
        Some(Event::Pong)
    } else if same_text(tag, "shutdown_ack") {
        Some(Event::ShutdownAck)
    } else if same_text(tag, "error") {
        let message = match str_member(line, "message") {
            Some(m) => m,
            None => String::from_str("unknown error"),
        };
        Some(Event::Error(message))
    } else if same_text(tag, "result") {
        Some(Event::Result(member_text(line, "data")))
    } else {
        Some(Event::Progress(String::from_str(line)))
    }
}

} // verus!
