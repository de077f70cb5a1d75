//! The command to launch, and the parsing of the invocation arguments.

use vstd::prelude::*;
use crate::errors::LaunchError;

verus! {

/// A command to launch: a program name resolved by the OS loader and an
/// ordered sequence of argument strings. Immutable once constructed.
#[derive(Debug, PartialEq, Eq)]
pub struct CommandSpec {
    pub program: String,
    pub args: Vec<String>,
}

/// An argument that requests the usage text instead of naming a program.
pub open spec fn is_help_flag(s: Seq<char>) -> bool {
    s == "-h"@ || s == "--help"@
}

/// Parses the invocation arguments (everything after the wrapper's own
/// name). The first argument names the program, the rest are its arguments;
/// an empty list or a leading help flag is a usage error.
pub fn parse_invocation(args: Vec<String>) -> (r: Result<CommandSpec, LaunchError>)
    ensures
        match r {
            Ok(cmd) => args@.len() >= 1 && !is_help_flag(args@[0]@)
                && cmd.program@ == args@[0]@
                && cmd.args@ == args@.skip(1),
            Err(e) => e is Usage && (args@.len() == 0 || is_help_flag(args@[0]@)),
        },
{
    if args.len() == 0 {
        return Err(LaunchError::Usage);
    }
    let short_flag = String::from_str("-h");
    let long_flag = String::from_str("--help");
    if args[0].eq(&short_flag) || args[0].eq(&long_flag) {
        return Err(LaunchError::Usage);
    }
    let mut rest = args;
    let program = rest.remove(0);
    proof {
        assert(rest@ =~= args@.skip(1));
    }
    Ok(CommandSpec { program, args: rest })
}

} // verus!
