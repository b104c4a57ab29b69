//! What the bridge logs, and how a record reads.

use vstd::prelude::*;
use vstd::string::StringExecFns;

verus! {

/// Severity of a log record, most severe first.
#[derive(Clone, Copy, Debug, PartialEq, Eq, Structural)]
pub enum LogLevel {
    Error,
    Warn,
    Info,
    Debug,
    Trace,
}

/// Records up to debug severity are logged; traces are not.
pub open spec fn spec_enabled(level: LogLevel) -> bool {
    level != LogLevel::Trace
}

/// Whether a record of the given severity is logged.
#[verifier::when_used_as_spec(spec_enabled)]
pub fn enabled(level: LogLevel) -> (logged: bool)
    ensures
        logged == spec_enabled(level),
{
    match level {
        LogLevel::Trace => false,
        _ => true,
    }
}

/// The line of a record: severity, message and target, each in square brackets.
pub open spec fn spec_format_record(level: Seq<char>, message: Seq<char>, target: Seq<char>) -> Seq<
    char,
> {
    "["@ + level + "] ["@ + message + "] ["@ + target + "]"@
}

/// Builds the line of a record.
pub fn format_record(level: &str, message: &str, target: &str) -> (line: String)
    ensures
        line@ == spec_format_record(level@, message@, target@),
{
    let mut line = String::from_str("[");
    line.append(level);
    line.append("] [");
    line.append(message);
    line.append("] [");
    line.append(target);
    line.append("]");
    line
}

/// The line to hand to the host for a record, or nothing where its severity is
/// not logged.
pub fn log_line(level: LogLevel, level_name: &str, message: &str, target: &str) -> (line: Option<
    String,
>)
    ensures
        line is Some <==> spec_enabled(level),
        line matches Some(text) ==> text@ == spec_format_record(level_name@, message@, target@),
{
    if enabled(level) {
        Some(format_record(level_name, message, target))
    } else {
        None
    }
}

} // verus!
