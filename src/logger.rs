use vstd::prelude::*;

use crate::args::level_rank;
use crate::args::LogLevel;

verus! {

/// The logging context of one run: the component name that prefixes each record and the
/// lowest level that is logged. Where the records go is up to the caller.
#[derive(Clone, Debug)]
pub struct Logger {
    pub stack: String,
    pub log_level: LogLevel,
}

impl Default for Logger {
    fn default() -> (r: Logger)
        ensures
            r.stack@ == seq!['u', 'n', 'k', 'n', 'o', 'w', 'n'],
            r.log_level == LogLevel::Info,
    {
        proof {
            reveal_strlit("unknown");
        }
        let stack = String::from_str("unknown");
        assert(stack@ =~= seq!['u', 'n', 'k', 'n', 'o', 'w', 'n']);
        Logger { stack, log_level: LogLevel::Info }
    }
}

/// Names the component that the records are written for.
pub fn set_stack(logger: &mut Logger, stack: &str)
    ensures
        final(logger).stack@ == stack@,
        final(logger).log_level == old(logger).log_level,
{
    logger.stack = String::from_str(stack);
}

/// Sets the lowest level that is logged.
pub fn set_verbosity(logger: &mut Logger, level: LogLevel)
    ensures
        final(logger).log_level == level,
        final(logger).stack == old(logger).stack,
{
    logger.log_level = level;
}

/// The five-character label of a level in a record.
pub open spec fn level_label(l: LogLevel) -> Seq<char> {
    match l {
        LogLevel::Debug => seq!['D', 'E', 'B', 'U', 'G'],
        LogLevel::Info => seq!['I', 'N', 'F', 'O', ' '],
        LogLevel::Warn => seq!['W', 'A', 'R', 'N', ' '],
        LogLevel::Error => seq!['E', 'R', 'R', 'O', 'R'],
    }
}

/// One record: `[<timestamp> <label> <stack>] <message>` and a line break.
pub open spec fn record_text(
    stack: Seq<char>,
    level: LogLevel,
    timestamp: Seq<char>,
    message: Seq<char>,
) -> Seq<char> {
    seq!['['] + timestamp + seq![' '] + level_label(level) + seq![' '] + stack + seq![']', ' ']
        + message + seq!['\n']
}

/// The record of a message where the level passes the logger's threshold.
pub open spec fn logged(logger: Logger, level: LogLevel, timestamp: Seq<char>, message: Seq<char>) -> Option<
    Seq<char>,
> {
    if level_rank(logger.log_level) <= level_rank(level) {
        Some(record_text(logger.stack@, level, timestamp, message))
    } else {
        None
    }
}

fn label_str(level: LogLevel) -> (r: &'static str)
    ensures
        r@ == level_label(level),
{
    match level {
        LogLevel::Debug => {
            proof {
                reveal_strlit("DEBUG");
            }
            assert("DEBUG"@ =~= level_label(level));
            "DEBUG"
        },
        LogLevel::Info => {
            proof {
                reveal_strlit("INFO ");
            }
            assert("INFO "@ =~= level_label(level));
            "INFO "
        },
        LogLevel::Warn => {
            proof {
                reveal_strlit("WARN ");
            }
            assert("WARN "@ =~= level_label(level));
            "WARN "
        },
        LogLevel::Error => {
            proof {
                reveal_strlit("ERROR");
            }
            assert("ERROR"@ =~= level_label(level));
            "ERROR"
        },
    }
}

/// Builds the record of a message, or `None` where its level is below the threshold.
fn log_record(logger: &Logger, level: LogLevel, timestamp: &str, message: &str) -> (r: Option<
    String,
>)
    ensures
        r matches Some(s) ==> logged(*logger, level, timestamp@, message@) == Some(s@),
        r is None ==> logged(*logger, level, timestamp@, message@) is None,
{
    if !logger.log_level.admits(level) {
        return None;
    }
    proof {
        reveal_strlit("[");
        reveal_strlit(" ");
        reveal_strlit("] ");
        reveal_strlit("\n");
    }
    let mut s = String::from_str("[");
    s.append(timestamp);
    s.append(" ");
    s.append(label_str(level));
    s.append(" ");
    s.append(logger.stack.as_str());
    s.append("] ");
    s.append(message);
    s.append("\n");
    assert(s@ =~= record_text(logger.stack@, level, timestamp@, message@));
    Some(s)
}

/// The record of a debug message, if debug messages are logged.
pub fn debug(logger: &Logger, timestamp: &str, message: &str) -> (r: Option<String>)
    ensures
        r matches Some(s) ==> logged(*logger, LogLevel::Debug, timestamp@, message@) == Some(s@),
        r is None ==> logged(*logger, LogLevel::Debug, timestamp@, message@) is None,
{
    log_record(logger, LogLevel::Debug, timestamp, message)
}

/// The record of an informational message, if such messages are logged.
pub fn info(logger: &Logger, timestamp: &str, message: &str) -> (r: Option<String>)
    ensures
        r matches Some(s) ==> logged(*logger, LogLevel::Info, timestamp@, message@) == Some(s@),
        r is None ==> logged(*logger, LogLevel::Info, timestamp@, message@) is None,
{
    log_record(logger, LogLevel::Info, timestamp, message)
}

/// The record of a warning, if warnings are logged.
pub fn warn(logger: &Logger, timestamp: &str, message: &str) -> (r: Option<String>)
    ensures
        r matches Some(s) ==> logged(*logger, LogLevel::Warn, timestamp@, message@) == Some(s@),
        r is None ==> logged(*logger, LogLevel::Warn, timestamp@, message@) is None,
{
    log_record(logger, LogLevel::Warn, timestamp, message)
}

/// The record of an error; errors pass every threshold.
pub fn error(logger: &Logger, timestamp: &str, message: &str) -> (r: Option<String>)
    ensures
        r matches Some(s) ==> logged(*logger, LogLevel::Error, timestamp@, message@) == Some(s@),
        r is None ==> logged(*logger, LogLevel::Error, timestamp@, message@) is None,
        r is Some,
{
    log_record(logger, LogLevel::Error, timestamp, message)
}

} // verus!
