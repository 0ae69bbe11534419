//! The command-line surface as plain data: the logging level, the parsed
//! invocation, and the placeholder subcommand set.

use vstd::prelude::*;

verus! {

/// The verbosity levels the logging flag accepts.
#[derive(Clone, Copy, Debug, PartialEq, Eq, Structural)]
pub enum LogLevel {
    Trace,
    Debug,
    Info,
    Warn,
    Error,
}

impl Default for LogLevel {
    /// The logging level used when none is given.
    fn default() -> (r: Self)
        ensures
            r is Info,
    {
        LogLevel::Info
    }
}

/// The severity rank of a level: lower ranks log more.
pub open spec fn level_rank(l: LogLevel) -> int {
    match l {
        LogLevel::Trace => 0,
        LogLevel::Debug => 1,
        LogLevel::Info => 2,
        LogLevel::Warn => 3,
        LogLevel::Error => 4,
    }
}

/// Whether a record of severity `record` passes a maximum level `max`.
pub fn level_enabled(max: LogLevel, record: LogLevel) -> (r: bool)
    ensures
        r == (level_rank(record) >= level_rank(max)),
{
    let max_rank: u8 = match max {
        LogLevel::Trace => 0,
        LogLevel::Debug => 1,
        LogLevel::Info => 2,
        LogLevel::Warn => 3,
        LogLevel::Error => 4,
    };
    let record_rank: u8 = match record {
        LogLevel::Trace => 0,
        LogLevel::Debug => 1,
        LogLevel::Info => 2,
        LogLevel::Warn => 3,
        LogLevel::Error => 4,
    };
    record_rank >= max_rank
}

/// The subcommand of an invocation; none is implemented yet, so this
/// carries no data.
#[derive(Clone, Copy, Debug, PartialEq, Eq, Structural)]
pub struct Command;

/// A parsed invocation: the logging level and the chosen subcommand.
pub struct Cli {
    pub log_level: LogLevel,
    pub command: Option<Command>,
}

} // verus!
