//! The severities at which events are emitted.

use crate::text::same_text;
use vstd::prelude::*;

verus! {

/// A severity of the event sink.
#[derive(Clone, Copy, Debug, PartialEq, Eq, Structural)]
pub enum Level {
    Trace,
    Debug,
    Info,
    Warn,
    Error,
}

/// The name under which the event sink knows a severity.
pub open spec fn level_name(level: Level) -> Seq<char> {
    match level {
        Level::Trace => "TRACE"@,
        Level::Debug => "DEBUG"@,
        Level::Info => "INFO"@,
        Level::Warn => "WARN"@,
        Level::Error => "ERROR"@,
    }
}

/// The severity that an upper-case name denotes, if it denotes one.
pub open spec fn level_named(upper: Seq<char>) -> Option<Level> {
    if upper == "TRACE"@ {
        Some(Level::Trace)
    } else if upper == "DEBUG"@ {
        Some(Level::Debug)
    } else if upper == "INFO"@ {
        Some(Level::Info)
    } else if upper == "WARN"@ {
        Some(Level::Warn)
    } else if upper == "ERROR"@ {
        Some(Level::Error)
    } else {
        None
    }
}

/// The upper-case form that `str::to_uppercase` gives a text.
pub uninterp spec fn uppercase(text: Seq<char>) -> Seq<char>;

/// `str::to_uppercase` of the standard library: the result is the upper-case
/// form of the text, a function of the text alone. Nothing more is claimed
/// of it.
pub assume_specification[ str::to_uppercase ](s: &str) -> (r: String)
    ensures
        r@ == uppercase(s@),
;

/// The severity that a name denotes once it is written in upper case.
pub open spec fn resolve_level(name: Seq<char>) -> Option<Level> {
    level_named(uppercase(name))
}

/// Every severity is found again under its own name.
pub proof fn lemma_level_found_by_name(level: Level)
    ensures
        level_named(level_name(level)) == Some(level),
{
    reveal_strlit("TRACE");
    reveal_strlit("DEBUG");
    reveal_strlit("INFO");
    reveal_strlit("WARN");
    reveal_strlit("ERROR");
    assert("TRACE"@[0] == 'T' && "DEBUG"@[0] == 'D' && "ERROR"@[0] == 'E');
    assert("INFO"@[0] == 'I' && "WARN"@[0] == 'W');
    assert("INFO"@.len() == 4 && "TRACE"@.len() == 5);
}

impl Level {
    /// The name under which the event sink knows this severity.
    pub fn name(self) -> (r: &'static str)
        ensures
            r@ == level_name(self),
    {
        match self {
            Level::Trace => "TRACE",
            Level::Debug => "DEBUG",
            Level::Info => "INFO",
            Level::Warn => "WARN",
            Level::Error => "ERROR",
        }
    }

    /// The severity with the upper-case name `upper`.
    pub fn from_canonical(upper: &str) -> (r: Option<Level>)
        ensures
            r == level_named(upper@),
    {
        if same_text(upper, "TRACE") {
            Some(Level::Trace)
        } else if same_text(upper, "DEBUG") {
            Some(Level::Debug)
        } else if same_text(upper, "INFO") {
            Some(Level::Info)
        } else if same_text(upper, "WARN") {
            Some(Level::Warn)
        } else if same_text(upper, "ERROR") {
            Some(Level::Error)
        } else {
            None
        }
    }

    /// Resolves a severity name, whatever the case of its letters.
    pub fn resolve(name: &str) -> (r: Option<Level>)
        ensures
            r == resolve_level(name@),
    {
        let upper = name.to_uppercase();
        Level::from_canonical(upper.as_str())
    }
}

} // verus!
