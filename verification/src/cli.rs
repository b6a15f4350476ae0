use vstd::prelude::*;

verus! {

/// The three commands the tool understands.
#[derive(Debug, PartialEq, Eq, Structural, Clone, Copy)]
pub enum SubCommand {
    Init,
    Enter,
    Kill,
}

/// A parsed command line: exactly one subcommand, no flags.
#[derive(Debug, PartialEq, Eq, Structural, Clone, Copy)]
pub struct Cli {
    pub sub_command: SubCommand,
}

} // verus!
