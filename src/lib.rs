//! Session logic for a pseudo-terminal backed shell: the keystroke mapping
//! that feeds the shell, the shared byte buffer that collects its output, and
//! the decisions of the background loop that drains the terminal into it.

pub mod input;
pub mod buffer;
pub mod reader;
pub mod session;
