//! Errors of the release tool.
use vstd::prelude::*;

use crate::error::Error;
use crate::mach::MachError;

verus! {

/// Errors of the release tool.
#[derive(Debug)]
pub enum CliError {
    /// A command-line argument the command needs was not given.
    MissingArgument(String),
    /// The hg command server failed.
    HgClient(Error),
    /// `./mach` failed.
    MachError(MachError),
    /// A step failed; the description of what went wrong.
    AnyError(String),
    /// Reading or writing a file failed; the system's description.
    IoError(String),
    /// A command's outcome was not acceptable.
    CommandFailed(String),
}

} // verus!
