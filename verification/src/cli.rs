//! The command line: what the program is asked to be.
use vstd::prelude::*;

verus! {

/// The subcommands of the program.
#[derive(Debug, Clone, Copy, PartialEq, Eq, Structural)]
pub enum Command {
    Highlighter,
}

/// What the program runs as.
#[derive(Debug, Clone, Copy, PartialEq, Eq, Structural)]
pub enum RunMode {
    /// The overlay process that draws the highlights.
    Highlighter,
    /// The desktop application.
    Tauri,
}

/// What to run: the highlighter where it is asked for, else the desktop application.
pub fn run(command: Option<Command>) -> (mode: RunMode)
    ensures
        mode == (match command {
            Some(Command::Highlighter) => RunMode::Highlighter,
            None => RunMode::Tauri,
        }),
{
    match command {
        Some(Command::Highlighter) => RunMode::Highlighter,
        None => RunMode::Tauri,
    }
}

} // verus!
