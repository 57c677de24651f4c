//! A scan: one run of the scanner against one target.

use vstd::prelude::*;
use vstd::utf8::valid_utf8;
use crate::command::{scan_command, ScanCommand};
use crate::launch::{describes, failure_text, ProcessOutput};
use crate::text::{from_utf8_lossy, is_lossy_decoding, REPLACEMENT};

verus! {

/// The two streams of a finished scan, as text.
#[derive(Debug, PartialEq, Eq)]
pub struct ScanResult {
    /// The text of standard output.
    pub output: String,
    /// The text of standard error.
    pub error: String,
}

impl ScanResult {
    /// This result holds the lossy decoding of the two streams of `finished`,
    /// each by itself.
    pub open spec fn reads(&self, finished: &ProcessOutput) -> bool {
        &&& is_lossy_decoding(finished.stdout@, self.output@)
        &&& is_lossy_decoding(finished.stderr@, self.error@)
    }

    /// Puts two decoded streams together.
    pub fn new(output: String, error: String) -> (result: ScanResult)
        ensures
            result.output == output,
            result.error == error,
    {
        ScanResult { output, error }
    }

    /// Decodes the two streams of a finished process.
    pub fn from_output(finished: &ProcessOutput) -> (result: ScanResult)
        ensures
            result.reads(finished),
    {
        let output = from_utf8_lossy(finished.stdout.as_slice());
        let error = from_utf8_lossy(finished.stderr.as_slice());
        ScanResult::new(output, error)
    }
}

/// `outcome` is what a scan returns when launching the scanner gave `launched`:
/// a process that ran to its end is a success and is read, and a process that
/// could not be started is a failure with the description of what went wrong.
pub open spec fn is_outcome_of(
    launched: Result<ProcessOutput, std::io::Error>,
    outcome: Result<ScanResult, String>,
) -> bool {
    match launched {
        Ok(finished) => outcome matches Ok(result) && result.reads(&finished),
        Err(failure) => outcome matches Err(text) && describes(&failure, text),
    }
}

/// What a scan returns, given how the launch of the scanner went.
pub fn scan_outcome(launched: Result<ProcessOutput, std::io::Error>) -> (outcome: Result<
    ScanResult,
    String,
>)
    ensures
        is_outcome_of(launched, outcome),
{
    match launched {
        Ok(finished) => Ok(ScanResult::from_output(&finished)),
        Err(failure) => Err(failure_text(&failure)),
    }
}

/// Scans `target`: has `launch` run the scanner's command for it, once, and
/// returns the outcome of that run. The launcher is expected to start the
/// process, wait for its end and hand back what it wrote, or the error with
/// which it could not be started.
pub fn invoke<L>(target: &str, launch: L) -> (outcome: Result<ScanResult, String>) where
    L: FnOnce(&ScanCommand) -> Result<ProcessOutput, std::io::Error>,

    requires
        forall|command: &ScanCommand|
            command.scans(target@) ==> #[trigger] launch.requires((command,)),
    ensures
        exists|command: &ScanCommand, launched: Result<ProcessOutput, std::io::Error>|
            command.scans(target@) && #[trigger] launch.ensures((command,), launched)
                && is_outcome_of(launched, outcome),
{
    let command = scan_command(target);
    let launched = launch(&command);
    let ghost given = launched;
    let outcome = scan_outcome(launched);
    assert(launch.ensures((&command,), given) && is_outcome_of(given, outcome));
    outcome
}

/// A scan fails only where the scanner could not be started: a process that
/// ran to its end is a success, whatever it wrote and however it exited.
pub proof fn lemma_fails_only_on_launch_failure(
    launched: Result<ProcessOutput, std::io::Error>,
    outcome: Result<ScanResult, String>,
)
    requires
        is_outcome_of(launched, outcome),
    ensures
        outcome is Err <==> launched is Err,
{
}

/// The exit code has no part in the result: what is the outcome of one
/// finished process is the outcome of every process that wrote the same
/// bytes, whatever the two exit codes are.
pub proof fn lemma_exit_code_is_ignored(
    first: ProcessOutput,
    second: ProcessOutput,
    outcome: Result<ScanResult, String>,
)
    requires
        first.stdout@ == second.stdout@,
        first.stderr@ == second.stderr@,
        is_outcome_of(Ok(first), outcome),
    ensures
        is_outcome_of(Ok(second), outcome),
{
}

/// Decoding does not fail a scan: a stream that is not well-formed UTF-8 is
/// read all the same, and its text holds the replacement character.
pub proof fn lemma_malformed_stream_is_marked(
    finished: ProcessOutput,
    outcome: Result<ScanResult, String>,
)
    requires
        is_outcome_of(Ok(finished), outcome),
    ensures
        outcome is Ok,
        !valid_utf8(finished.stdout@) ==> outcome->Ok_0.output@.contains(REPLACEMENT),
        !valid_utf8(finished.stderr@) ==> outcome->Ok_0.error@.contains(REPLACEMENT),
{
}

} // verus!
