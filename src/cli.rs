//! Subcommands of the command-line front end.
use vstd::prelude::*;

verus! {

/// What the program is asked to do.
#[derive(Debug, Clone, Copy, PartialEq, Eq, Structural, Default)]
pub enum Command {
    /// Browse the store interactively.
    #[default]
    View,
}

} // verus!
