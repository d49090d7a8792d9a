use vstd::prelude::*;

verus! {

/// The parsed command line: the subcommand, if one was given.
#[derive(Clone, Debug, PartialEq, Eq)]
pub struct Cli {
    pub command: Option<Commands>,
}

/// The subcommands of the program.
#[derive(Clone, Debug, PartialEq, Eq)]
pub enum Commands {
    /// Store the position data over time, one snapshot file per poll in the
    /// directory `path`.
    LogPositionData { path: String },
    /// Fetch the position data once and print it.
    PrintPositionData,
}

} // verus!
