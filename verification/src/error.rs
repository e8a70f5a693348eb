//! What ends a run early, and how it is reported.

use vstd::prelude::*;
use vstd::string::StringExecFns;

verus! {

/// A condition that ends the run. Each one is fatal: nothing is retried and
/// nothing after it is processed.
#[derive(Debug)]
pub enum RunError {
    /// The command line did not hold exactly a file path and an API key.
    Usage,
    /// The input file could not be read; holds the system's description.
    Io(String),
    /// A row of the input is malformed; holds the reader's description.
    Csv(String),
    /// A request got no reply; holds the client's description.
    Transport(String),
    /// A reply announced success with a body that is no JSON document; holds
    /// the parser's description.
    Body(String),
}

/// A `RunError` with its texts as sequences of characters.
pub enum Failure {
    Usage,
    Io(Seq<char>),
    Csv(Seq<char>),
    Transport(Seq<char>),
    Body(Seq<char>),
}

impl View for RunError {
    type V = Failure;

    open spec fn view(&self) -> Failure {
        match self {
            RunError::Usage => Failure::Usage,
            RunError::Io(detail) => Failure::Io(detail@),
            RunError::Csv(detail) => Failure::Csv(detail@),
            RunError::Transport(detail) => Failure::Transport(detail@),
            RunError::Body(detail) => Failure::Body(detail@),
        }
    }
}

/// The text that tells how the program is invoked.
pub open spec fn usage_text() -> Seq<char> {
    "Usage: cargo run <file.csv> <VirusTotal-API-Key>"@
}

/// What stands before the parser's description of a body that is no JSON.
pub open spec fn body_prefix() -> Seq<char> {
    "error decoding response body: "@
}

/// What stands before a failure's description on the diagnostic stream.
pub open spec fn report_prefix() -> Seq<char> {
    "Error: "@
}

/// The description of a failure.
pub open spec fn description(failure: Failure) -> Seq<char> {
    match failure {
        Failure::Usage => usage_text(),
        Failure::Io(detail) => detail,
        Failure::Csv(detail) => detail,
        Failure::Transport(detail) => detail,
        Failure::Body(detail) => body_prefix() + detail,
    }
}

impl RunError {
    /// The description of this failure: the usage text, or what the file
    /// system, the reader, the client or the parser said.
    pub fn message(&self) -> (text: String)
        ensures
            text@ == description(self@),
    {
        match self {
            RunError::Usage => String::from_str("Usage: cargo run <file.csv> <VirusTotal-API-Key>"),
            RunError::Io(detail) => detail.clone(),
            RunError::Csv(detail) => detail.clone(),
            RunError::Transport(detail) => detail.clone(),
            RunError::Body(detail) => String::from_str("error decoding response body: ").concat(
                detail.as_str(),
            ),
        }
    }

    /// The line that reports this failure on the diagnostic stream.
    pub fn report(&self) -> (line: String)
        ensures
            line@ == report_prefix() + description(self@),
    {
        let text = self.message();
        String::from_str("Error: ").concat(text.as_str())
    }
}

/// The exit status of the process: 0 after a run that went through, 1 after
/// one that a failure ended.
pub fn exit_status(outcome: &Result<(), RunError>) -> (status: i32)
    ensures
        status == (if outcome is Ok { 0i32 } else { 1i32 }),
{
    match outcome {
        Ok(_) => 0,
        Err(_) => 1,
    }
}

} // verus!
