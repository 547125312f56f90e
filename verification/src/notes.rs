//! The lines that a launch writes to the process log, and the script that
//! sends the window to the server.

use vstd::prelude::*;
use crate::text::decimal;
use crate::text::decimal_string;

verus! {

/// Most readiness probes that one launch performs.
pub const MAX_ATTEMPTS: u32 = 30;

/// Every how many failed attempts a progress line is logged.
pub const PROGRESS_EVERY: u32 = 5;

/// Logged once the child process runs.
pub const SPAWNED_NOTE: &'static str = "Node.js sidecar spawned successfully";

/// Logged when a probe got a success-range answer.
pub const RESPONDING_NOTE: &'static str = "Server is responding on port 3000";

/// Logged when every probe was used up without such an answer.
pub const TIMEOUT_NOTE: &'static str =
    "Timeout reached, but Node.js process is still running. Proceeding anyway...";

/// The line logged before the entry point is looked for, given its path
/// already quoted.
pub open spec fn starting_text(quoted_path: Seq<char>) -> Seq<char> {
    "Starting server with path: "@ + quoted_path
}

/// The progress line logged after failed attempt number `attempt`.
pub open spec fn waiting_text(attempt: nat) -> Seq<char> {
    "Server process running, waiting for HTTP response... (attempt "@ + decimal(attempt) + "/"@
        + decimal(MAX_ATTEMPTS as nat) + ")"@
}

/// The script that makes the window navigate to `url`.
pub open spec fn navigation_text(url: Seq<char>) -> Seq<char> {
    "window.location.href = '"@ + url + "'"@
}

/// The texts of a list of lines.
pub open spec fn lines(log: Seq<String>) -> Seq<Seq<char>> {
    log.map_values(|line: String| line@)
}

/// Builds the line logged before the entry point is looked for.
pub fn starting_note(quoted_path: &str) -> (r: String)
    ensures
        r@ == starting_text(quoted_path@),
{
    String::from_str("Starting server with path: ").concat(quoted_path)
}

/// Builds the progress line for failed attempt number `attempt`.
pub fn waiting_note(attempt: u32) -> (r: String)
    ensures
        r@ == waiting_text(attempt as nat),
{
    let number = decimal_string(attempt);
    let limit = decimal_string(MAX_ATTEMPTS);
    String::from_str("Server process running, waiting for HTTP response... (attempt ").concat(
        number.as_str(),
    ).concat("/").concat(limit.as_str()).concat(")")
}

/// Builds the script that makes the window navigate to `url`.
pub fn navigation_script(url: &str) -> (r: String)
    ensures
        r@ == navigation_text(url@),
{
    String::from_str("window.location.href = '").concat(url).concat("'")
}

} // verus!
