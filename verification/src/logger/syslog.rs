use vstd::prelude::*;

use super::{format_log_line, spec_log_line};

verus! {

/// The log line of an informational message at time `now`.
pub fn info(now: &str, msg: &str) -> (line: String)
    ensures
        line@ == spec_log_line(now@, "INFO"@, msg@),
        line@ == "["@ + now@ + "] ["@ + "INFO"@ + "] "@ + msg@,
{
    format_log_line(now, "INFO", msg)
}

/// The log line of a warning at time `now`.
pub fn warn(now: &str, msg: &str) -> (line: String)
    ensures
        line@ == spec_log_line(now@, "WARN"@, msg@),
        line@ == "["@ + now@ + "] ["@ + "WARN"@ + "] "@ + msg@,
{
    format_log_line(now, "WARN", msg)
}

/// The log line of an error at time `now`.
pub fn error(now: &str, msg: &str) -> (line: String)
    ensures
        line@ == spec_log_line(now@, "ERROR"@, msg@),
        line@ == "["@ + now@ + "] ["@ + "ERROR"@ + "] "@ + msg@,
{
    format_log_line(now, "ERROR", msg)
}

/// The log line of a debug message at time `now`.
pub fn debug(now: &str, msg: &str) -> (line: String)
    ensures
        line@ == spec_log_line(now@, "DEBUG"@, msg@),
        line@ == "["@ + now@ + "] ["@ + "DEBUG"@ + "] "@ + msg@,
{
    format_log_line(now, "DEBUG", msg)
}

} // verus!
