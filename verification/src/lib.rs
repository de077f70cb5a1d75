//! A process-launching wrapper library: the verified core of a program that
//! spawns a child command, relays its standard output verbatim, relays its
//! standard error with visual decoration, and exits with the child's exit
//! code.
//!
//! The library holds the decisions and transformations: how the child's
//! streams are wired, how invocation arguments are parsed, how error output
//! is decorated and undecorated, in what order the relays and the final
//! status retrieval must happen, and which process exit code each outcome
//! maps to. The surrounding program performs the actual process spawning,
//! reading and writing.

pub mod command;
pub mod decor;
pub mod errors;
pub mod relay;
pub mod supervise;
pub mod wiring;
