//! What the programs of the kernel decide and show: the shell and the
//! status line.

pub mod shell;
pub mod statusline;
