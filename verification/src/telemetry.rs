//! Spoken telemetry: the short sentences that tell the user what the
//! runtime is doing.

use crate::text::copy_str;
use vstd::prelude::*;

verus! {

/// What the runtime reports.
#[derive(Debug, Clone, PartialEq)]
pub enum TelemetryEvent {
    Thinking,
    Done,
    Error,
    Custom(String),
}

pub struct Telemetry;

/// The sentence for an event.
pub open spec fn sentence(event: TelemetryEvent) -> Seq<char> {
    match event {
        TelemetryEvent::Thinking => "Thinking."@,
        TelemetryEvent::Done => "Task complete."@,
        TelemetryEvent::Error => "Error encountered."@,
        TelemetryEvent::Custom(s) => s@,
    }
}

impl Telemetry {
    /// The sentence that is spoken for an event.
    pub fn message(event: TelemetryEvent) -> (out: String)
        ensures
            out@ == sentence(event),
    {
        match event {
            TelemetryEvent::Thinking => copy_str("Thinking."),
            TelemetryEvent::Done => copy_str("Task complete."),
            TelemetryEvent::Error => copy_str("Error encountered."),
            TelemetryEvent::Custom(s) => s,
        }
    }
}

} // verus!
