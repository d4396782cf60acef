use vstd::prelude::*;

verus! {

/// Severity of a log record emitted by a guest.
#[derive(Clone, Copy, Debug, PartialEq, Eq, Structural)]
pub enum LogLevel {
    Trace,
    Debug,
    Information,
    Warning,
    Error,
    Critical,
    /// No logging at all (the level that the wire format calls "None").
    Off,
}

/// The one-byte code under which a level travels in a guest log record.
pub open spec fn level_code(level: LogLevel) -> u8 {
    match level {
        LogLevel::Trace => 0,
        LogLevel::Debug => 1,
        LogLevel::Information => 2,
        LogLevel::Warning => 3,
        LogLevel::Error => 4,
        LogLevel::Critical => 5,
        LogLevel::Off => 6,
    }
}

/// The level that a one-byte code stands for, if any.
pub open spec fn level_of_code(code: u8) -> Option<LogLevel> {
    if code == 0 {
        Some(LogLevel::Trace)
    } else if code == 1 {
        Some(LogLevel::Debug)
    } else if code == 2 {
        Some(LogLevel::Information)
    } else if code == 3 {
        Some(LogLevel::Warning)
    } else if code == 4 {
        Some(LogLevel::Error)
    } else if code == 5 {
        Some(LogLevel::Critical)
    } else if code == 6 {
        Some(LogLevel::Off)
    } else {
        Option::None
    }
}

impl LogLevel {
    /// The wire code of this level.
    pub fn to_code(&self) -> (code: u8)
        ensures
            code == level_code(*self),
    {
        match self {
            LogLevel::Trace => 0,
            LogLevel::Debug => 1,
            LogLevel::Information => 2,
            LogLevel::Warning => 3,
            LogLevel::Error => 4,
            LogLevel::Critical => 5,
            LogLevel::Off => 6,
        }
    }

    /// The level of a wire code; `Option::None` for a code that names no level.
    pub fn from_code(code: u8) -> (level: Option<LogLevel>)
        ensures
            level == level_of_code(code),
    {
        match code {
            0 => Some(LogLevel::Trace),
            1 => Some(LogLevel::Debug),
            2 => Some(LogLevel::Information),
            3 => Some(LogLevel::Warning),
            4 => Some(LogLevel::Error),
            5 => Some(LogLevel::Critical),
            6 => Some(LogLevel::Off),
            _ => Option::None,
        }
    }
}

/// Decoding the code of a level gives back that level.
pub proof fn lemma_level_code_round_trip(level: LogLevel)
    ensures
        level_of_code(level_code(level)) == Some(level),
{
}

/// A code that names a level is that level's code.
pub proof fn lemma_level_code_unique(code: u8)
    ensures
        level_of_code(code) matches Some(level) ==> level_code(level) == code,
        level_of_code(code) is Some <==> code <= 6,
{
}

/// The codes fixed by the wire format's `LogLevel` enum, declared in the
/// order Trace, Debug, Information, Warning, Error, Critical, None and
/// numbered from 0: each level travels as its position in that order, and a
/// code decodes to the level at that position (none past 6).
pub proof fn lemma_level_codes_are_wire_positions()
    ensures
        level_code(LogLevel::Trace) == 0u8,
        level_code(LogLevel::Debug) == 1u8,
        level_code(LogLevel::Information) == 2u8,
        level_code(LogLevel::Warning) == 3u8,
        level_code(LogLevel::Error) == 4u8,
        level_code(LogLevel::Critical) == 5u8,
        level_code(LogLevel::Off) == 6u8,
        forall|c: u8, l: LogLevel| #[trigger] level_of_code(c) == Some(l) <==> c == #[trigger] level_code(l),
        forall|c: u8| #[trigger] level_of_code(c) is None <==> c > 6,
{
    assert forall|c: u8, l: LogLevel| #[trigger] level_of_code(c) == Some(l) <==> c == #[trigger] level_code(l) by {
        match l {
            LogLevel::Trace => {},
            LogLevel::Debug => {},
            LogLevel::Information => {},
            LogLevel::Warning => {},
            LogLevel::Error => {},
            LogLevel::Critical => {},
            LogLevel::Off => {},
        }
    }
}

} // verus!
