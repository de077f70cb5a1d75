//! The wrapper's own failure modes, their diagnostics and their exit codes.
//!
//! Every failure of the wrapper itself — as opposed to a failure of the
//! child command — surfaces as a message on the invoker's error stream and
//! the fixed process exit code 1.

use vstd::prelude::*;

verus! {

/// A failure of the wrapper itself.
#[derive(Clone, Copy, Debug, PartialEq, Eq, Structural)]
pub enum LaunchError {
    /// No command was given, or help was requested.
    Usage,
    /// The operating system could not locate or execute the named program.
    SpawnNotFound,
    /// Any other spawn failure (permission denied, resource exhaustion, ...).
    SpawnOther,
    /// Pseudo-terminal allocation failed in interactive mode; fatal, with no
    /// fallback to piped wiring.
    PtyAlloc,
    /// The blocking wait on the child failed.
    Wait,
}

/// The diagnostic for a failure of the wrapper. `prog` is the attempted
/// program name (read only for a spawn-not-found failure); `detail` is the
/// operating system's description of an unclassified spawn failure (read
/// only for that failure).
pub fn error_message(e: &LaunchError, prog: &str, detail: &str) -> (msg: String)
    ensures
        e is Usage ==> msg@ == "usage: launchred [-h|--help] COMMAND [ARGS...]"@,
        e is SpawnNotFound ==> msg@ == "launchred: "@ + prog@ + ": command not found"@,
        e is SpawnOther ==> msg@ == "launchred: unknown error "@ + detail@,
        e is PtyAlloc ==> msg@ == "launchred: could not allocate a pseudo-terminal"@,
        e is Wait ==> msg@ == "launchred: error while waiting for child process"@,
{
    match e {
        LaunchError::Usage => String::from_str("usage: launchred [-h|--help] COMMAND [ARGS...]"),
        LaunchError::SpawnNotFound => {
            let mut msg = String::from_str("launchred: ");
            msg.append(prog);
            msg.append(": command not found");
            msg
        },
        LaunchError::SpawnOther => {
            let mut msg = String::from_str("launchred: unknown error ");
            msg.append(detail);
            msg
        },
        LaunchError::PtyAlloc => String::from_str("launchred: could not allocate a pseudo-terminal"),
        LaunchError::Wait => String::from_str("launchred: error while waiting for child process"),
    }
}

/// The wrapper's overall process exit code: the child's own code when the
/// launch succeeded, the fixed fallback 1 on any failure of the wrapper.
pub fn final_exit_code(outcome: &Result<i32, LaunchError>) -> (code: i32)
    ensures
        match outcome {
            Ok(c) => code == c,
            Err(_) => code == 1,
        },
{
    match outcome {
        Ok(c) => *c,
        Err(_) => 1,
    }
}

} // verus!
