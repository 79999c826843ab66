//! The notifications that a request sends to its listener.

use crate::percent::{percentage_text, Percentage};
use vstd::prelude::*;

verus! {

/// The topic on which the events of all requests are delivered.
pub const CHANNEL: &'static str = "compression-event";

/// The kinds of notification.
#[derive(Clone, Copy, Debug, PartialEq, Eq, Structural)]
pub enum EventType {
    /// The request has reached a new stage.
    Status,
    /// The external tool has written a line.
    Progress,
    /// The request has ended well. Terminal.
    Success,
    /// The request has failed. Terminal.
    Error,
}

impl EventType {
    /// The name of the kind on the wire.
    pub open spec fn name(self) -> Seq<char> {
        match self {
            EventType::Status => "status"@,
            EventType::Progress => "progress"@,
            EventType::Success => "success"@,
            EventType::Error => "error"@,
        }
    }

    /// Whether an event of this kind ends a request.
    pub open spec fn is_terminal(self) -> bool {
        self == EventType::Success || self == EventType::Error
    }

    /// The name of the kind on the wire.
    pub fn as_str(&self) -> (r: &'static str)
        ensures
            r@ == self.name(),
    {
        match self {
            EventType::Status => "status",
            EventType::Progress => "progress",
            EventType::Success => "success",
            EventType::Error => "error",
        }
    }

    /// Whether an event of this kind ends a request.
    pub fn terminal(&self) -> (r: bool)
        ensures
            r == self.is_terminal(),
    {
        match self {
            EventType::Success | EventType::Error => true,
            _ => false,
        }
    }
}

/// One notification.
#[derive(Debug, PartialEq, Eq)]
pub struct CompressionEvent {
    /// The normalized name of the algorithm of the request.
    pub algorithm: String,
    pub event_type: EventType,
    pub message: String,
    /// How far the work has come, where that is known.
    pub percentage: Option<Percentage>,
}

/// What the contracts say of a `CompressionEvent`.
pub struct EventView {
    pub algorithm: Seq<char>,
    pub event_type: EventType,
    pub message: Seq<char>,
    /// The numeral of the percentage.
    pub percentage: Option<Seq<char>>,
}

impl View for CompressionEvent {
    type V = EventView;

    open spec fn view(&self) -> EventView {
        EventView {
            algorithm: self.algorithm@,
            event_type: self.event_type,
            message: self.message@,
            percentage: match self.percentage {
                Some(p) => Some(p@),
                None => None,
            },
        }
    }
}

/// The views of a list of events.
pub open spec fn event_views(v: Seq<CompressionEvent>) -> Seq<EventView> {
    Seq::new(v.len(), |i: int| v[i]@)
}

/// A status event.
pub open spec fn status_event(
    algorithm: Seq<char>,
    message: Seq<char>,
    percentage: Option<Seq<char>>,
) -> EventView {
    EventView { algorithm, event_type: EventType::Status, message, percentage }
}

/// The event for one line of a tool's diagnostic output: the line itself,
/// with the percentage that it reports.
pub open spec fn progress_event(algorithm: Seq<char>, line: Seq<char>) -> EventView {
    EventView {
        algorithm,
        event_type: EventType::Progress,
        message: line,
        percentage: percentage_text(line),
    }
}

/// The event that ends a request that went well.
pub open spec fn success_event(algorithm: Seq<char>) -> EventView {
    EventView {
        algorithm,
        event_type: EventType::Success,
        message: "Compression finished successfully"@,
        percentage: Some("100"@),
    }
}

/// The event that ends a request that failed with `message`.
pub open spec fn error_event(algorithm: Seq<char>, message: Seq<char>) -> EventView {
    EventView { algorithm, event_type: EventType::Error, message, percentage: None }
}

impl CompressionEvent {
    /// A status event.
    pub fn status(algorithm: &str, message: String, percentage: Option<Percentage>) -> (r:
        CompressionEvent)
        ensures
            r@ == status_event(
                algorithm@,
                message@,
                match percentage {
                    Some(p) => Some(p@),
                    None => None,
                },
            ),
    {
        CompressionEvent {
            algorithm: algorithm.to_owned(),
            event_type: EventType::Status,
            message,
            percentage,
        }
    }

    /// The event for one line of a tool's diagnostic output.
    pub fn progress(algorithm: &str, line: String) -> (r: CompressionEvent)
        ensures
            r@ == progress_event(algorithm@, line@),
    {
        let percentage = crate::percent::parse_percentage(line.as_str());
        CompressionEvent {
            algorithm: algorithm.to_owned(),
            event_type: EventType::Progress,
            message: line,
            percentage,
        }
    }

    /// The event that ends a request that went well.
    pub fn success(algorithm: &str) -> (r: CompressionEvent)
        ensures
            r@ == success_event(algorithm@),
    {
        CompressionEvent {
            algorithm: algorithm.to_owned(),
            event_type: EventType::Success,
            message: "Compression finished successfully".to_owned(),
            percentage: Some(Percentage::complete()),
        }
    }

    /// The event that ends a request that failed with `message`.
    pub fn error(algorithm: &str, message: String) -> (r: CompressionEvent)
        ensures
            r@ == error_event(algorithm@, message@),
    {
        CompressionEvent {
            algorithm: algorithm.to_owned(),
            event_type: EventType::Error,
            message,
            percentage: None,
        }
    }
}

} // verus!
