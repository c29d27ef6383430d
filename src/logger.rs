//! Leveled log lines. The level is held by a `Logger` value that is passed to
//! whoever logs, not by process-wide state.

use vstd::prelude::*;
use crate::named::same_text;

verus! {

/// The severity of a log line, from the most to the least severe.
#[derive(Clone, Copy, Debug, PartialEq, Eq, Structural)]
pub enum LogLevel {
    Error,
    Warn,
    Info,
    Debug,
    Trace,
}

/// What `str::to_uppercase` makes of a text.
pub uninterp spec fn upper_of(s: Seq<char>) -> Seq<char>;

/// Relies on `str::to_uppercase`: the result depends on the characters alone,
/// and nothing stays nothing.
#[verifier::external_body]
fn to_upper(s: &str) -> (r: String)
    ensures
        r@ == upper_of(s@),
        s@.len() == 0 ==> r@.len() == 0,
{
    s.to_uppercase()
}

/// The level an upper-case name stands for; any other text means `Info`.
pub open spec fn level_named(u: Seq<char>) -> LogLevel {
    if u == "ERROR"@ {
        LogLevel::Error
    } else if u == "WARN"@ {
        LogLevel::Warn
    } else if u == "INFO"@ {
        LogLevel::Info
    } else if u == "DEBUG"@ {
        LogLevel::Debug
    } else if u == "TRACE"@ {
        LogLevel::Trace
    } else {
        LogLevel::Info
    }
}

pub open spec fn color_of(l: LogLevel) -> Seq<char> {
    match l {
        LogLevel::Error => "\x1b[31m"@,
        LogLevel::Warn => "\x1b[33m"@,
        LogLevel::Info => "\x1b[32m"@,
        LogLevel::Debug => "\x1b[36m"@,
        LogLevel::Trace => "\x1b[37m"@,
    }
}

pub open spec fn label_of(l: LogLevel) -> Seq<char> {
    match l {
        LogLevel::Error => "ERROR"@,
        LogLevel::Warn => "WARN "@,
        LogLevel::Info => "INFO "@,
        LogLevel::Debug => "DEBUG"@,
        LogLevel::Trace => "TRACE"@,
    }
}

pub open spec fn rank_of(l: LogLevel) -> nat {
    match l {
        LogLevel::Error => 0,
        LogLevel::Warn => 1,
        LogLevel::Info => 2,
        LogLevel::Debug => 3,
        LogLevel::Trace => 4,
    }
}

impl LogLevel {
    /// The terminal colour code that opens a line of this level.
    pub fn color(&self) -> (r: &'static str)
        ensures
            r@ == color_of(*self),
    {
        match self {
            LogLevel::Error => "\x1b[31m",
            LogLevel::Warn => "\x1b[33m",
            LogLevel::Info => "\x1b[32m",
            LogLevel::Debug => "\x1b[36m",
            LogLevel::Trace => "\x1b[37m",
        }
    }

    /// The level's label, five characters wide.
    pub fn as_str(&self) -> (r: &'static str)
        ensures
            r@ == label_of(*self),
    {
        match self {
            LogLevel::Error => "ERROR",
            LogLevel::Warn => "WARN ",
            LogLevel::Info => "INFO ",
            LogLevel::Debug => "DEBUG",
            LogLevel::Trace => "TRACE",
        }
    }

    /// Severity as a number: 0 for errors up to 4 for traces.
    pub fn rank(&self) -> (r: u8)
        ensures
            r == rank_of(*self),
    {
        match self {
            LogLevel::Error => 0,
            LogLevel::Warn => 1,
            LogLevel::Info => 2,
            LogLevel::Debug => 3,
            LogLevel::Trace => 4,
        }
    }

    /// The level named by an upper-case text.
    pub fn from_upper(u: &str) -> (r: LogLevel)
        ensures
            r == level_named(u@),
    {
        if same_text(u, "ERROR") {
            LogLevel::Error
        } else if same_text(u, "WARN") {
            LogLevel::Warn
        } else if same_text(u, "INFO") {
            LogLevel::Info
        } else if same_text(u, "DEBUG") {
            LogLevel::Debug
        } else if same_text(u, "TRACE") {
            LogLevel::Trace
        } else {
            LogLevel::Info
        }
    }

    /// The level named, in any case, by the value of the log-level setting
    /// (empty when unset).
    pub fn from_env(value: &str) -> (r: LogLevel)
        ensures
            r == level_named(upper_of(value@)),
            value@.len() == 0 ==> r == LogLevel::Info,
    {
        let u = to_upper(value);
        proof {
            if value@.len() == 0 {
                assert(u@ =~= Seq::<char>::empty());
                reveal_strlit("ERROR");
                reveal_strlit("WARN");
                reveal_strlit("INFO");
                reveal_strlit("DEBUG");
                reveal_strlit("TRACE");
            }
        }
        LogLevel::from_upper(u.as_str())
    }
}

/// Decides which lines are written and how they look.
pub struct Logger {
    level: LogLevel,
}

/// A logger at the level that the log-level setting names (`Info` when
/// unset or unknown).
pub fn init_logger(env_value: &str) -> (r: Logger)
    ensures
        r.level() == level_named(upper_of(env_value@)),
        env_value@.len() == 0 ==> r.level() == LogLevel::Info,
{
    Logger { level: LogLevel::from_env(env_value) }
}

/// Changes the level of `logger`.
pub fn set_log_level(logger: &mut Logger, level: LogLevel)
    ensures
        final(logger).level() == level,
{
    logger.level = level;
}

/// A log line: the level's colour, its label in brackets, a colour reset,
/// the time stamp and the message.
pub open spec fn log_line_of(level: LogLevel, stamp: Seq<char>, message: Seq<char>) -> Seq<char> {
    color_of(level) + seq!['['] + label_of(level) + "]\x1b[0m "@ + stamp + seq![' '] + message
}

impl Logger {
    pub closed spec fn level(&self) -> LogLevel {
        self.level
    }

    /// The current level.
    pub fn current_level(&self) -> (r: LogLevel)
        ensures
            r == self.level(),
    {
        self.level
    }

    /// Whether lines of `level` are written: those at least as severe as the
    /// logger's level.
    pub fn enabled(&self, level: LogLevel) -> (r: bool)
        ensures
            r == (rank_of(level) <= rank_of(self.level())),
    {
        level.rank() <= self.level.rank()
    }
}

/// The line to write for `message` at `level`, stamped with `stamp`, or
/// nothing when `logger` filters the level out.
pub fn log_impl(logger: &Logger, level: LogLevel, stamp: &str, message: &str) -> (r: Option<String>)
    ensures
        r is None <==> rank_of(level) > rank_of(logger.level()),
        r matches Some(l) ==> l@ == log_line_of(level, stamp@, message@),
{
    if !logger.enabled(level) {
        return None;
    }
    let mut s = level.color().to_owned();
    s.push('[');
    let s = s.concat(level.as_str());
    let s = s.concat("]\x1b[0m ");
    let mut s = s.concat(stamp);
    s.push(' ');
    Some(s.concat(message))
}

} // verus!
