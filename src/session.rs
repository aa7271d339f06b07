use vstd::prelude::*;

verus! {

/// The size of the terminal that the shell is given, in character cells.
#[derive(Clone, Copy, Debug, PartialEq, Eq, Structural)]
pub struct TermSize {
    pub rows: u16,
    pub cols: u16,
}

/// The number of rows a new session's terminal has unless told otherwise.
pub const DEFAULT_ROWS: u16 = 24;

/// The number of columns a new session's terminal has unless told otherwise.
pub const DEFAULT_COLS: u16 = 80;

/// The program the session runs on the terminal.
pub const SHELL_PATH: &'static str = "/bin/bash";

impl TermSize {
    pub fn new(rows: u16, cols: u16) -> (r: TermSize)
        ensures
            r.rows == rows,
            r.cols == cols,
    {
        TermSize { rows, cols }
    }
}

impl Default for TermSize {
    /// A terminal of 24 rows and 80 columns.
    fn default() -> (r: TermSize)
        ensures
            r.rows == DEFAULT_ROWS,
            r.cols == DEFAULT_COLS,
    {
        TermSize { rows: DEFAULT_ROWS, cols: DEFAULT_COLS }
    }
}

} // verus!
