//! The stream-wiring decision: pseudo-terminal pairs for an interactive
//! invoker, anonymous pipes otherwise.

use vstd::prelude::*;

verus! {

/// How the child's standard streams are wired. Decided once per invocation,
/// immutable thereafter.
#[derive(Clone, Copy, Debug, PartialEq, Eq, Structural)]
pub enum WiringMode {
    /// Two pseudo-terminal pairs are allocated: one serving the child's
    /// stdin and stdout, a second serving its stderr.
    Interactive,
    /// Anonymous unidirectional pipes for the child's stdout and stderr;
    /// stdin is inherited.
    Piped,
}

/// Decides the wiring mode from whether the invoking process's standard
/// input is attached to an interactive terminal.
pub fn choose_wiring(stdin_is_tty: bool) -> (mode: WiringMode)
    ensures
        mode == (if stdin_is_tty {
            WiringMode::Interactive
        } else {
            WiringMode::Piped
        }),
{
    if stdin_is_tty {
        WiringMode::Interactive
    } else {
        WiringMode::Piped
    }
}

/// The new file-status flag word for a stream handle: clearing the given bit
/// makes reads block again, setting it makes them non-blocking.
pub fn apply_blocking_mask(flags: i32, mask: i32, blocking: bool) -> (r: i32)
    ensures
        blocking ==> r == (flags & !mask),
        !blocking ==> r == (flags | mask),
{
    if blocking {
        flags & !mask
    } else {
        flags | mask
    }
}

} // verus!
