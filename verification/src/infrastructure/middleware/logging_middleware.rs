//! The note that is logged of each request: where it went and how long it
//! took.

use crate::text::{decimal, push_decimal};
use vstd::prelude::*;

verus! {

/// The line that notes a request to `path` which took `elapsed_millis`
/// milliseconds.
pub open spec fn timing_text(path: Seq<char>, elapsed_millis: nat) -> Seq<char> {
    "Request to '"@ + path + "' took '"@ + decimal(elapsed_millis) + "'ms"@
}

/// Notes the time that each request takes.
#[derive(Debug, Clone, Copy, PartialEq, Eq, Structural)]
pub struct LoggingMiddleware;

impl LoggingMiddleware {
    /// The line to log for a request to `path` that took `elapsed_millis`
    /// milliseconds.
    pub fn timing_line(&self, path: &str, elapsed_millis: u128) -> (line: String)
        ensures
            line@ == timing_text(path@, elapsed_millis as nat),
    {
        let mut line = String::from_str("Request to '");
        line.append(path);
        line.append("' took '");
        push_decimal(&mut line, elapsed_millis);
        line.append("'ms");
        line
    }
}

} // verus!
