//! The lines that a run shows on standard output.

use vstd::prelude::*;
use vstd::string::StringExecFns;

verus! {

/// What is shown for a row that has no ninth field.
pub open spec fn placeholder_text() -> Seq<char> {
    "(no ninth entry)"@
}

/// What is shown for a token whose lookup succeeded, `pretty` being the
/// reply's document in its pretty form.
pub open spec fn response_text(token: Seq<char>, pretty: Seq<char>) -> Seq<char> {
    "Response for hash "@ + token + ": "@ + pretty
}

/// What is shown for a token whose lookup was answered with a status that
/// does not announce success, `status` being the status as text.
pub open spec fn refusal_text(token: Seq<char>, status: Seq<char>) -> Seq<char> {
    "Failed to query hash "@ + token + ": "@ + status
}

/// The line for a row that has no ninth field.
pub fn placeholder_line() -> (line: String)
    ensures
        line@ == placeholder_text(),
{
    String::from_str("(no ninth entry)")
}

/// The line for a lookup that succeeded.
pub fn response_line(token: &str, pretty: &str) -> (line: String)
    ensures
        line@ == response_text(token@, pretty@),
{
    String::from_str("Response for hash ").concat(token).concat(": ").concat(pretty)
}

/// The line for a lookup that the service refused.
pub fn refusal_line(token: &str, status: &str) -> (line: String)
    ensures
        line@ == refusal_text(token@, status@),
{
    String::from_str("Failed to query hash ").concat(token).concat(": ").concat(status)
}

} // verus!
