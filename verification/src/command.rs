//! The command line of a scan.

use vstd::prelude::*;

verus! {

/// The name under which the scanner is looked up on the search path.
pub const SCANNER: &'static str = "nmap";

/// A program to start and the arguments to start it with. Nothing else of the
/// process is set: it runs in the caller's directory and environment.
#[derive(Debug, PartialEq, Eq)]
pub struct ScanCommand {
    /// The name of the executable.
    pub program: String,
    /// The arguments, in order; none of them passes through a shell.
    pub args: Vec<String>,
}

impl ScanCommand {
    /// This command starts the scanner with `target` as its only argument,
    /// character for character.
    pub open spec fn scans(&self, target: Seq<char>) -> bool {
        &&& self.program@ == SCANNER@
        &&& self.args@.len() == 1
        &&& self.args@[0]@ == target
    }
}

/// Builds the command that scans `target`. The target is not looked into:
/// every string, the empty one too, becomes the one argument as it is.
pub fn scan_command(target: &str) -> (command: ScanCommand)
    ensures
        command.scans(target@),
{
    let mut args: Vec<String> = Vec::new();
    args.push(target.to_owned());
    ScanCommand { program: SCANNER.to_owned(), args }
}

} // verus!
