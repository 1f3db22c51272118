//! The log level that each service takes on its command line.

use vstd::prelude::*;
use vstd::string::StringExecFns;

use crate::text::text_eq;

verus! {

/// How much a service logs.
#[derive(Debug, Clone, Copy, PartialEq, Eq, Structural)]
pub enum LogLevel {
    Trace,
    Debug,
    Info,
    Warn,
    Error,
}

/// The level a name stands for, if any.
pub open spec fn level_named(s: Seq<char>) -> Option<LogLevel> {
    if s == "trace"@ {
        Some(LogLevel::Trace)
    } else if s == "debug"@ {
        Some(LogLevel::Debug)
    } else if s == "info"@ {
        Some(LogLevel::Info)
    } else if s == "warn"@ {
        Some(LogLevel::Warn)
    } else if s == "error"@ {
        Some(LogLevel::Error)
    } else {
        None
    }
}

/// The message given for a name that is no level.
pub open spec fn unknown_level_message() -> Seq<char> {
    "unknown log level"@
}

impl LogLevel {
    /// The name of the level on the command line.
    pub open spec fn name(self) -> Seq<char> {
        match self {
            LogLevel::Trace => "trace"@,
            LogLevel::Debug => "debug"@,
            LogLevel::Info => "info"@,
            LogLevel::Warn => "warn"@,
            LogLevel::Error => "error"@,
        }
    }

    /// Reads a level from its name.
    pub fn parse(s: &str) -> (r: Result<LogLevel, String>)
        ensures
            match level_named(s@) {
                Some(level) => r == Ok::<LogLevel, String>(level),
                None => r matches Err(e) && e@ == unknown_level_message(),
            },
    {
        if text_eq(s, "trace") {
            Ok(LogLevel::Trace)
        } else if text_eq(s, "debug") {
            Ok(LogLevel::Debug)
        } else if text_eq(s, "info") {
            Ok(LogLevel::Info)
        } else if text_eq(s, "warn") {
            Ok(LogLevel::Warn)
        } else if text_eq(s, "error") {
            Ok(LogLevel::Error)
        } else {
            Err(String::from_str("unknown log level"))
        }
    }

    /// The name of the level.
    pub fn as_str(&self) -> (r: &'static str)
        ensures
            r@ == self.name(),
    {
        match self {
            LogLevel::Trace => "trace",
            LogLevel::Debug => "debug",
            LogLevel::Info => "info",
            LogLevel::Warn => "warn",
            LogLevel::Error => "error",
        }
    }
}

impl std::str::FromStr for LogLevel {
    type Err = String;

    fn from_str(s: &str) -> (r: Result<Self, Self::Err>)
        ensures
            match level_named(s@) {
                Some(level) => r == Ok::<LogLevel, String>(level),
                None => r matches Err(e) && e@ == unknown_level_message(),
            },
    {
        LogLevel::parse(s)
    }
}

/// Every level is read back from its name.
pub proof fn law_level_name_round_trip(level: LogLevel)
    ensures
        level_named(level.name()) == Some(level),
{
    reveal_strlit("trace");
    reveal_strlit("debug");
    reveal_strlit("info");
    reveal_strlit("warn");
    reveal_strlit("error");
    assert("trace"@[0] == 't');
    assert("debug"@[0] == 'd');
    assert("info"@[0] == 'i');
    assert("warn"@[0] == 'w');
    assert("error"@[0] == 'e');
}

} // verus!
