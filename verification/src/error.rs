//! Errors of the command-server client.
use vstd::prelude::*;

verus! {

/// Errors that can occur when communicating with the Mercurial command server.
#[derive(Debug)]
pub enum Error {
    /// An input/output failure, with the system's description of it.
    Io(String),
    /// A command ended with a nonzero exit code.
    CommandFailed { code: i32, stderr: String },
    /// The server sent something the protocol does not allow.
    ProtocolError(String),
    /// Command output could not be decoded; `raw` is the output itself.
    ParseError { message: String, raw: String },
    /// The server process is gone.
    ServerNotRunning,
}

} // verus!
