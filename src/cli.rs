use vstd::prelude::*;

use crate::ops::Direction;

verus! {

/// The command line: one subcommand.
pub struct Cli {
    pub command: Commands,
}

#[derive(Clone, Copy, Debug, PartialEq, Eq, Structural)]
pub enum Commands {
    /// Collect all items into the repository.
    Collect,
    /// Restore all items from the repository.
    Restore,
    /// Pull and restore in a loop.
    Sync,
    /// Print the id of this device.
    Device,
}

impl Commands {
    /// Whether the command works on a repository (all but `Device`).
    pub fn needs_repo(&self) -> (r: bool)
        ensures
            r == !(*self is Device),
    {
        !matches!(self, Commands::Device)
    }

    /// The direction a one-shot transfer command moves items in.
    pub fn direction(&self) -> (r: Option<Direction>)
        ensures
            *self is Collect ==> r == Some(Direction::Collect),
            *self is Restore ==> r == Some(Direction::Restore),
            *self is Sync || *self is Device ==> r is None,
    {
        match self {
            Commands::Collect => Some(Direction::Collect),
            Commands::Restore => Some(Direction::Restore),
            _ => None,
        }
    }
}

} // verus!
