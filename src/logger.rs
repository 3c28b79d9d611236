//! The lines of the log file: each message under the time it was written.
use vstd::prelude::*;
use vstd::string::StringExecFns;

verus! {

/// The log line of `message` written at `timestamp`: `[timestamp] message`.
pub open spec fn log_entry(timestamp: Seq<char>, message: Seq<char>) -> Seq<char> {
    "["@ + timestamp + "] "@ + message
}

/// The log line of `message` written at `timestamp`.
pub fn format_log_line(timestamp: &str, message: &str) -> (r: String)
    ensures
        r@ == log_entry(timestamp@, message@),
{
    let mut r = String::from_str("[");
    r.append(timestamp);
    r.append("] ");
    r.append(message);
    r
}

} // verus!
