//! Minell, a minimal shell: the commands it understands and its texts.

use crate::util::str_eq;
use vstd::prelude::*;

verus! {

/// What a line typed into the shell asks for.
#[derive(Clone, Copy, PartialEq, Eq, Debug, Structural)]
pub enum Command {
    /// `help`: show what the shell understands.
    Help,
    /// `shutdown` or `exit`: shut the machine down.
    Shutdown,
    /// Anything else.
    NotFound,
}

/// The greeting of the shell.
pub const GREETING: &'static str = "\nMinell. A MInimal shELL.\nType help for help. Exit to exit ..";

/// The prompt in front of every line.
pub const PROMPT: &'static str = "> ";

/// The longest line the shell reads.
pub const MAX_LINE_LENGTH: usize = 80;

/// The answer to a line that is no command.
pub const NOT_FOUND: &'static str = "Command not found. Type `help` for more information.";

/// Tells the command of a line: the line must be the command's name,
/// letter for letter.
pub fn parse_command(command: &str) -> (parsed: Command)
    ensures
        parsed == if command@ == "help"@ {
            Command::Help
        } else if command@ == "shutdown"@ || command@ == "exit"@ {
            Command::Shutdown
        } else {
            Command::NotFound
        },
{
    if str_eq(command, "help") {
        Command::Help
    } else if str_eq(command, "shutdown") || str_eq(command, "exit") {
        Command::Shutdown
    } else {
        Command::NotFound
    }
}

/// The lines that `help` shows.
pub fn print_help() -> (lines: [&'static str; 4])
    ensures
        lines[0]@ == "Alternatives are denoted using |"@,
        lines[1]@ == "======= Command : Function ======="@,
        lines[2]@ == "           help : Prints this."@,
        lines[3]@ == "exit | shutdown : Shuts down the pc."@,
{
    [
        "Alternatives are denoted using |",
        "======= Command : Function =======",
        "           help : Prints this.",
        "exit | shutdown : Shuts down the pc.",
    ]
}

} // verus!
