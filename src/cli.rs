//! The commands a caller can ask for.
use vstd::prelude::*;
use crate::manifest::BuildRequest;

verus! {

/// Unpack an archive and boot it.
pub struct RunRequest {
    /// Path of the archive.
    pub quardle: String,
    /// Directory the archive is unpacked into.
    pub output: String,
}

/// The commands, one variant each.
pub enum Command {
    /// Run a quardle.
    Run(RunRequest),
    /// Build a quardle.
    Build(BuildRequest),
}

/// What the command line asked for.
pub struct Cli {
    pub command: Command,
}

impl Cli {
    /// The command given on the command line.
    pub fn command(self) -> (r: Command)
        ensures
            r == self.command,
    {
        self.command
    }
}

} // verus!
