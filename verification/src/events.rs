//! The events that an instrumented function emits, as the event sink sees
//! them.

use crate::level::Level;
use crate::text::{decimal, decimal_text};
use vstd::prelude::*;

verus! {

/// Where in the source an event comes from.
#[derive(Clone, Debug, PartialEq, Eq)]
pub struct SourceLocation {
    pub file: String,
    pub line: u32,
}

/// An event handed to the sink.
#[derive(Clone, Debug, PartialEq, Eq)]
pub struct TraceEvent {
    pub level: Level,
    pub message: String,
}

/// The mathematical content of a [`TraceEvent`].
pub ghost struct EventModel {
    pub level: Level,
    pub message: Seq<char>,
}

impl View for TraceEvent {
    type V = EventModel;

    open spec fn view(&self) -> EventModel {
        EventModel { level: self.level, message: self.message@ }
    }
}

/// The message on entry: the function, its argument text, and the file and
/// line of its definition.
pub open spec fn entry_message(
    name: Seq<char>,
    arguments: Seq<char>,
    file: Seq<char>,
    line: nat,
) -> Seq<char> {
    ">>> ["@ + name + "] #Args: "@ + arguments + " --- "@ + file + ":"@ + decimal(line)
}

/// The message on exit: the function, the debug representation of what it
/// returned, and how long it ran.
pub open spec fn exit_message(
    name: Seq<char>,
    result: Seq<char>,
    duration: Seq<char>,
) -> Seq<char> {
    "<<< ["@ + name + "] #Ret: "@ + result + ", duration: "@ + duration
}

/// The event emitted before the body of `name` runs.
pub fn entry_event(
    level: Level,
    name: &str,
    arguments: &str,
    location: &SourceLocation,
) -> (r: TraceEvent)
    ensures
        r@ == (EventModel {
            level,
            message: entry_message(name@, arguments@, location.file@, location.line as nat),
        }),
{
    let mut message = ">>> [".to_owned();
    message.append(name);
    message.append("] #Args: ");
    message.append(arguments);
    message.append(" --- ");
    message.append(location.file.as_str());
    message.append(":");
    message.append(decimal_text(location.line).as_str());
    TraceEvent { level, message }
}

/// The event emitted after the body of `name` has returned. `result` is the
/// debug representation of the returned value, `duration` that of the time
/// the body took.
pub fn exit_event(level: Level, name: &str, result: &str, duration: &str) -> (r: TraceEvent)
    ensures
        r@ == (EventModel { level, message: exit_message(name@, result@, duration@) }),
{
    let mut message = "<<< [".to_owned();
    message.append(name);
    message.append("] #Ret: ");
    message.append(result);
    message.append(", duration: ");
    message.append(duration);
    TraceEvent { level, message }
}

} // verus!
