//! What launching the scanner process gives back.

use vstd::prelude::*;
use vstd::string::to_string_from_display_ensures;

verus! {

/// `std::io::Error`, the error with which the operating system refuses to
/// start a process. The value is carried through; nothing is claimed of what
/// it holds.
#[verifier::external_type_specification]
#[verifier::external_body]
pub struct ExIoError(std::io::Error);

/// What a scanner process that ran to its end left behind.
#[derive(Debug, PartialEq, Eq)]
pub struct ProcessOutput {
    /// The exit code, or `None` where the process ended without one.
    pub exit_code: Option<i32>,
    /// The bytes written to standard output.
    pub stdout: Vec<u8>,
    /// The bytes written to standard error.
    pub stderr: Vec<u8>,
}

/// `text` is the description that `failure` displays.
pub open spec fn describes(failure: &std::io::Error, text: String) -> bool {
    to_string_from_display_ensures::<std::io::Error>(failure, text)
}

/// The description of a launch failure, as text for the caller to show.
pub fn failure_text(failure: &std::io::Error) -> (text: String)
    ensures
        describes(failure, text),
{
    failure.to_string()
}

} // verus!
