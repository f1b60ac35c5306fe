use vstd::prelude::*;
use vstd::string::*;

use crate::text::same_text;

verus! {

/// The five severities a log record can carry, most urgent first.
#[derive(PartialEq, Eq, Structural, Debug, Clone, Copy)]
pub enum Severity {
    Error,
    Warn,
    Info,
    Debug,
    Trace,
}

/// Position of a severity on the urgency scale: lower is more urgent.
pub open spec fn rank(s: Severity) -> int {
    match s {
        Severity::Error => 1,
        Severity::Warn => 2,
        Severity::Info => 3,
        Severity::Debug => 4,
        Severity::Trace => 5,
    }
}

impl Severity {
    /// The urgency rank of this severity (`Error` is 1, `Trace` is 5).
    pub fn rank(&self) -> (r: u8)
        ensures
            r as int == rank(*self),
    {
        match *self {
            Severity::Error => 1,
            Severity::Warn => 2,
            Severity::Info => 3,
            Severity::Debug => 4,
            Severity::Trace => 5,
        }
    }
}

/// Defines the different levels for log messages.
#[derive(PartialEq, Eq, Structural, Debug, Clone, Copy)]
pub enum LoggingLevel {
    /// Only shows errors and warnings.
    Critical,
    /// Shows everything except debug and trace information.
    Normal,
    /// Shows everything.
    Debug,
}

/// The error returned for a token that names no logging level.
pub const LEVEL_PARSE_ERROR: &'static str = "a log level (debug, normal, critical)";

impl LoggingLevel {
    /// The most verbose severity that this level lets through.
    pub open spec fn ceiling(self) -> Severity {
        match self {
            LoggingLevel::Critical => Severity::Warn,
            LoggingLevel::Normal => Severity::Info,
            LoggingLevel::Debug => Severity::Trace,
        }
    }

    /// The lowercase token that names this level.
    pub open spec fn token(self) -> Seq<char> {
        match self {
            LoggingLevel::Critical => "critical"@,
            LoggingLevel::Normal => "normal"@,
            LoggingLevel::Debug => "debug"@,
        }
    }

    /// The level a token names, if any.
    pub open spec fn parse_token(s: Seq<char>) -> Option<LoggingLevel> {
        if s == "critical"@ {
            Some(LoggingLevel::Critical)
        } else if s == "normal"@ {
            Some(LoggingLevel::Normal)
        } else if s == "debug"@ {
            Some(LoggingLevel::Debug)
        } else {
            None
        }
    }

    /// Whether a record of severity `s` passes this level.
    pub open spec fn admits(self, s: Severity) -> bool {
        rank(s) <= rank(self.ceiling())
    }

    /// The most verbose severity that this level lets through.
    pub fn max_log_level(&self) -> (r: Severity)
        ensures
            r == self.ceiling(),
    {
        match *self {
            LoggingLevel::Critical => Severity::Warn,
            LoggingLevel::Normal => Severity::Info,
            LoggingLevel::Debug => Severity::Trace,
        }
    }

    /// Whether a record of severity `s` passes this level.
    pub fn enabled(&self, s: Severity) -> (r: bool)
        ensures
            r == self.admits(s),
    {
        s.rank() <= self.max_log_level().rank()
    }

    /// Parses a level from its token: `"critical"`, `"normal"` or `"debug"`,
    /// compared case-sensitively. Any other text is refused with
    /// `LEVEL_PARSE_ERROR`.
    pub fn from_str(s: &str) -> (r: Result<LoggingLevel, &'static str>)
        ensures
            match r {
                Ok(l) => Self::parse_token(s@) == Some(l),
                Err(e) => Self::parse_token(s@) is None && e@ == LEVEL_PARSE_ERROR@,
            },
    {
        if same_text(s, "critical") {
            Ok(LoggingLevel::Critical)
        } else if same_text(s, "normal") {
            Ok(LoggingLevel::Normal)
        } else if same_text(s, "debug") {
            Ok(LoggingLevel::Debug)
        } else {
            Err(LEVEL_PARSE_ERROR)
        }
    }

    /// The token that names this level, as `from_str` reads it.
    pub fn as_str(&self) -> (r: &'static str)
        ensures
            r@ == self.token(),
    {
        match *self {
            LoggingLevel::Critical => "critical",
            LoggingLevel::Normal => "normal",
            LoggingLevel::Debug => "debug",
        }
    }

    /// The token that names this level, as an owned string.
    pub fn to_string(&self) -> (r: String)
        ensures
            r@ == self.token(),
    {
        String::from_str(self.as_str())
    }
}

impl std::str::FromStr for LoggingLevel {
    type Err = &'static str;

    fn from_str(s: &str) -> Result<LoggingLevel, &'static str> {
        LoggingLevel::from_str(s)
    }
}

/// Every level's token parses back to that level.
pub proof fn lemma_token_parses_to_level(l: LoggingLevel)
    ensures
        LoggingLevel::parse_token(l.token()) == Some(l),
{
    reveal_strlit("critical");
    reveal_strlit("normal");
    reveal_strlit("debug");
    assert("critical"@ != "normal"@ && "critical"@ != "debug"@ && "normal"@ != "debug"@) by {
        assert("critical"@.len() != "normal"@.len());
        assert("critical"@.len() != "debug"@.len());
        assert("normal"@.len() != "debug"@.len());
    }
}

/// A token that parses to a level is displayed back as the same token.
pub proof fn lemma_parsed_level_displays_as_token(t: Seq<char>)
    requires
        LoggingLevel::parse_token(t) is Some,
    ensures
        LoggingLevel::parse_token(t).unwrap().token() == t,
{
}

} // verus!
