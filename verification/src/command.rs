//! The external-command strategies' decision logic.
//!
//! Spawning an external utility is outside work; what the library owns is the
//! judgement on its completion status: success passes, and any other status
//! becomes an error carrying the utility's name and that exact status.

use vstd::prelude::*;

use crate::Error;

verus! {

/// The completion status of an external command, as plain values: whether it
/// counted as success, and its exit code when one was available.
#[derive(Clone, Copy, Debug, PartialEq, Eq)]
pub struct ProcessStatus {
    /// Whether the command completed successfully.
    pub success: bool,
    /// The exit code, when the command exited with one.
    pub code: Option<i32>,
}

/// What an external-command strategy runs: the program, its single optional
/// argument, and the label that an error about it carries.
#[derive(Clone, Copy, Debug, PartialEq, Eq)]
pub struct CommandSpec {
    /// The program to spawn.
    pub program: &'static str,
    /// The one argument handed to the program, if any.
    pub argument: Option<&'static str>,
    /// The name an error about this command carries.
    pub label: &'static str,
}

/// Judges a completed external command: success is passed through, and any
/// other status becomes an error carrying the command's label and the status.
pub fn command_outcome(label: &'static str, status: ProcessStatus) -> (r: Result<(), Error>)
    ensures
        status.success ==> r is Ok,
        !status.success ==> (r matches Err(e) && e == Error::Command(label, status)),
{
    if status.success {
        Ok(())
    } else {
        Err(Error::Command(label, status))
    }
}

} // verus!
