//! Child supervision: the final disposition of the child process, the exit
//! code derived from it, and the barrier that orders status retrieval after
//! the draining of both output relays.

use vstd::prelude::*;

verus! {

/// How the child process ended.
#[derive(Clone, Copy, Debug, PartialEq, Eq, Structural)]
pub enum ChildStatus {
    /// The child exited normally with this code.
    Exited(i32),
    /// The child was terminated abnormally (for example by a signal) and no
    /// exit code is available.
    Signaled,
}

/// The result of waiting for the child once both relays have finished.
#[derive(Clone, Copy, Debug, PartialEq, Eq, Structural)]
pub enum WaitOutcome {
    /// The child's termination status was retrieved.
    Ready(ChildStatus),
    /// The wait operation itself failed.
    Failed,
}

/// The exit code a child status maps to.
pub open spec fn spec_exit_code_for_status(st: ChildStatus) -> int {
    match st {
        ChildStatus::Exited(c) => c as int,
        ChildStatus::Signaled => 1,
    }
}

/// The wrapper propagates the child's numeric exit code when one is
/// available, and falls back to 1 when the child was terminated abnormally
/// without one.
pub fn exit_code_for_status(st: &ChildStatus) -> (code: i32)
    ensures
        code == spec_exit_code_for_status(*st),
{
    match st {
        ChildStatus::Exited(c) => *c,
        ChildStatus::Signaled => 1,
    }
}

/// The exit code after the wait: the child's own disposition when the wait
/// succeeded, the fallback 1 when the wait itself failed.
pub fn exit_code_for_wait(w: &WaitOutcome) -> (code: i32)
    ensures
        match w {
            WaitOutcome::Ready(st) => code == spec_exit_code_for_status(*st),
            WaitOutcome::Failed => code == 1,
        },
{
    match w {
        WaitOutcome::Ready(st) => exit_code_for_status(st),
        WaitOutcome::Failed => 1,
    }
}

/// The supervision ledger of one invocation: which relay tasks have
/// observed end-of-stream, and whether the child's termination status has
/// been retrieved. Retrieving the status while a relay is still draining
/// risks silently dropping output buffered just before the child exited;
/// the well-formedness predicate rules that order out.
#[derive(Clone, Copy, Debug, PartialEq, Eq, Structural)]
pub struct Supervision {
    /// The stdout relay has observed end-of-stream on its source.
    pub stdout_drained: bool,
    /// The stderr relay has observed end-of-stream on its source.
    pub stderr_drained: bool,
    /// The child's termination status has been retrieved.
    pub status_taken: bool,
}

impl Supervision {
    /// The ordering invariant: the status is retrieved only after both
    /// relays have drained their streams.
    pub open spec fn wf(self) -> bool {
        self.status_taken ==> self.stdout_drained && self.stderr_drained
    }

    /// A fresh ledger: nothing drained, status not yet retrieved.
    pub fn new() -> (s: Supervision)
        ensures
            s == (Supervision { stdout_drained: false, stderr_drained: false, status_taken: false }),
            s.wf(),
    {
        Supervision { stdout_drained: false, stderr_drained: false, status_taken: false }
    }

    /// Records that the stdout relay reached end-of-stream.
    pub fn note_stdout_drained(&mut self)
        requires
            old(self).wf(),
        ensures
            *final(self) == (Supervision { stdout_drained: true, ..*old(self) }),
            final(self).wf(),
    {
        self.stdout_drained = true;
    }

    /// Records that the stderr relay reached end-of-stream.
    pub fn note_stderr_drained(&mut self)
        requires
            old(self).wf(),
        ensures
            *final(self) == (Supervision { stderr_drained: true, ..*old(self) }),
            final(self).wf(),
    {
        self.stderr_drained = true;
    }

    /// Whether the child's status may now be retrieved without risking
    /// truncated output.
    pub fn may_take_status(&self) -> (r: bool)
        ensures
            r == (self.stdout_drained && self.stderr_drained),
    {
        self.stdout_drained && self.stderr_drained
    }

    /// Records the retrieval of the child's status. Demands that both
    /// relays drained first, and that the status is taken only once.
    pub fn record_status_taken(&mut self)
        requires
            old(self).wf(),
            old(self).stdout_drained,
            old(self).stderr_drained,
            !old(self).status_taken,
        ensures
            *final(self) == (Supervision { status_taken: true, ..*old(self) }),
            final(self).wf(),
    {
        self.status_taken = true;
    }
}

/// In every well-formed supervision ledger in which the child's status has
/// been retrieved, both output relays had already observed end-of-stream:
/// no output produced before termination can have been left in flight.
pub proof fn lemma_status_taken_after_drain(s: Supervision)
    requires
        s.wf(),
        s.status_taken,
    ensures
        s.stdout_drained,
        s.stderr_drained,
{
}

} // verus!
