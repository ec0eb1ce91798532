//! What a start of the application that did not succeed has to say.
//!
//! The host runtime either runs to its end or hands back a failure. A failure
//! is reported as one line of text and is otherwise swallowed: the caller
//! writes the line out and returns as it would after a clean exit.

use vstd::prelude::*;
use vstd::string::StringExecFns;

verus! {

/// The line reported for a failure whose own message is `detail`: a fixed
/// prefix, then the message as it came.
pub open spec fn failure_line_text(detail: Seq<char>) -> Seq<char> {
    "Error while running tauri application: "@ + detail
}

/// Builds the line to report for a failure with the message `detail`.
pub fn failure_line(detail: &str) -> (line: String)
    ensures
        line@ == failure_line_text(detail@),
{
    let mut line = String::from_str("Error while running tauri application: ");
    line.append(detail);
    line
}

/// Decides what to report once the host runtime has returned: `None` after a
/// clean run, and after a failure the line that carries its message.
pub fn failure_report(outcome: &Result<(), String>) -> (report: Option<String>)
    ensures
        outcome is Ok ==> report is None,
        outcome is Err ==> report is Some,
        outcome is Err ==> report->Some_0@ == failure_line_text(outcome->Err_0@),
{
    match outcome {
        Ok(_) => None,
        Err(detail) => Some(failure_line(detail.as_str())),
    }
}

} // verus!
