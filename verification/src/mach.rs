//! Running `./mach` subcommands of a Firefox checkout.
use vstd::prelude::*;

use crate::args::push_arg;
use crate::text::{decode_utf8_lossy, string_views, utf8_lossy_text};

verus! {

/// The `./mach` subcommands the release tooling runs.
#[derive(Debug, Clone, Copy, PartialEq, Eq, Structural)]
pub enum MachCommand {
    RustCheckUpstream,
    RustSync,
    RustVendor,
}

/// The arguments `./mach` receives for a subcommand.
pub open spec fn mach_args(cmd: MachCommand) -> Seq<Seq<char>> {
    match cmd {
        MachCommand::RustCheckUpstream => seq!["tb-rust"@, "check-upstream"@],
        MachCommand::RustSync => seq!["tb-rust"@, "sync"@],
        MachCommand::RustVendor => seq!["tb-rust"@, "vendor"@],
    }
}

impl MachCommand {
    /// The arguments `./mach` receives for this subcommand.
    pub fn into_args(&self) -> (res: Vec<String>)
        ensures
            string_views(res@) == mach_args(*self),
    {
        let mut v: Vec<String> = Vec::new();
        push_arg(&mut v, "tb-rust");
        match self {
            MachCommand::RustCheckUpstream => push_arg(&mut v, "check-upstream"),
            MachCommand::RustSync => push_arg(&mut v, "sync"),
            MachCommand::RustVendor => push_arg(&mut v, "vendor"),
        }
        assert(string_views(v@) =~= mach_args(*self));
        v
    }
}

/// Everything a finished `./mach` run printed, and its exit code.
#[derive(Debug)]
pub struct CommandOutput {
    pub stdout: Vec<u8>,
    pub stderr: Vec<u8>,
    pub return_code: i32,
}

/// The exit code `./mach tb-rust check-upstream` uses to report that the
/// vendored dependencies are out of sync.
pub open spec fn out_of_sync_code() -> i32 {
    88
}

impl CommandOutput {
    /// Whether the exit code means the subcommand did its job: zero, or for
    /// the upstream check also the out-of-sync code.
    pub fn is_acceptable_exit_code(&self, cmd: MachCommand) -> (res: bool)
        ensures
            res <==> (self.return_code == 0 || (cmd == MachCommand::RustCheckUpstream
                && self.return_code == out_of_sync_code())),
    {
        self.return_code == 0 || (cmd == MachCommand::RustCheckUpstream && self.return_code == 88)
    }
}

/// Errors from running `./mach`.
#[derive(Debug)]
pub enum MachError {
    /// The subcommand exited with a nonzero code.
    CommandFailed { code: i32, stderr: String },
    /// The subcommand could not be run; the system's description.
    Io(String),
}

/// A Firefox checkout in which `./mach` runs.
#[derive(Debug)]
pub struct Mach {
    pub cwd: String,
}

impl Mach {
    /// The checkout at `cwd`.
    pub fn new(cwd: String) -> (res: Mach)
        ensures
            res.cwd == cwd,
    {
        Mach { cwd }
    }

    /// The standard output of a finished run as text, or the failure when it
    /// exited with a nonzero code.
    pub fn run_command_string(&self, output: CommandOutput) -> (res: Result<String, MachError>)
        ensures
            output.return_code != 0 ==> (res matches Err(MachError::CommandFailed { code, stderr })
                && code == output.return_code && stderr@ == utf8_lossy_text(output.stderr@)),
            output.return_code == 0 ==> (res matches Ok(s) && s@ == utf8_lossy_text(
                output.stdout@,
            )),
    {
        if output.return_code != 0 {
            return Err(
                MachError::CommandFailed {
                    code: output.return_code,
                    stderr: decode_utf8_lossy(output.stderr.as_slice()),
                },
            );
        }
        Ok(decode_utf8_lossy(output.stdout.as_slice()))
    }
}

} // verus!
