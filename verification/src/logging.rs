use vstd::prelude::*;

verus! {

/// Message severity, from most to least urgent.
#[derive(Clone, Copy, Debug, PartialEq, Eq, Structural)]
pub enum Level {
    Error,
    Warn,
    Info,
    Debug,
    Trace,
}

/// Rank of a level: smaller means more urgent.  A message passes a
/// configured level exactly when its rank is at most the configured rank.
pub open spec fn rank(l: Level) -> int {
    match l {
        Level::Error => 1,
        Level::Warn => 2,
        Level::Info => 3,
        Level::Debug => 4,
        Level::Trace => 5,
    }
}

/// The verified part of the logger: the configured maximum level.
/// Formatting and printing of accepted records stay outside the library.
#[derive(Clone, Copy, Debug, PartialEq, Eq, Structural)]
pub struct LoggerConfig {
    pub level: Level,
}

impl LoggerConfig {
    /// A record of severity `message_level` is emitted exactly when it
    /// is at least as urgent as the configured level.
    pub fn enabled(&self, message_level: Level) -> (r: bool)
        ensures
            r == (rank(message_level) <= rank(self.level)),
    {
        rank_of(message_level) <= rank_of(self.level)
    }
}

/// Executable rank of a level, equal to the spec-level `rank`.
fn rank_of(l: Level) -> (r: u8)
    ensures
        r as int == rank(l),
{
    match l {
        Level::Error => 1,
        Level::Warn => 2,
        Level::Info => 3,
        Level::Debug => 4,
        Level::Trace => 5,
    }
}

/// The tag under which a record of this level is printed.
pub fn level_label(l: Level) -> (r: &'static str)
    ensures
        match l {
            Level::Error => r@ == "ERROR"@,
            Level::Warn => r@ == "WARNING"@,
            Level::Info => r@ == "INFO"@,
            Level::Debug => r@ == "DEBUG"@,
            Level::Trace => r@ == "TRACE"@,
        },
{
    match l {
        Level::Error => "ERROR",
        Level::Warn => "WARNING",
        Level::Info => "INFO",
        Level::Debug => "DEBUG",
        Level::Trace => "TRACE",
    }
}

/// Builds the configuration of a logger that emits every record at or
/// above `level`.  Installing it as the process-wide logger is left to
/// the unverified surroundings.
pub fn init_logger(level: Level) -> (config: LoggerConfig)
    ensures
        config.level == level,
{
    LoggerConfig { level }
}

} // verus!
