use vstd::prelude::*;

use crate::layout::Size;

verus! {

/// Refuses to draw the interface on a terminal below a minimum size.
pub struct TerminalGuard {
    min_cols: u16,
    min_rows: u16,
}

impl TerminalGuard {
    pub closed spec fn min_cols_spec(&self) -> u16 {
        self.min_cols
    }

    pub closed spec fn min_rows_spec(&self) -> u16 {
        self.min_rows
    }

    pub fn new(min_cols: u16, min_rows: u16) -> (g: TerminalGuard)
        ensures
            g.min_cols_spec() == min_cols,
            g.min_rows_spec() == min_rows,
    {
        TerminalGuard { min_cols, min_rows }
    }

    /// The minimum number of columns.
    pub fn min_cols(&self) -> (c: u16)
        ensures
            c == self.min_cols_spec(),
    {
        self.min_cols
    }

    /// The minimum number of rows.
    pub fn min_rows(&self) -> (r: u16)
        ensures
            r == self.min_rows_spec(),
    {
        self.min_rows
    }

    /// The terminal is too small when it lacks columns or rows.
    pub fn too_small(&self, size: Size) -> (b: bool)
        ensures
            b == (size.width < self.min_cols_spec() || size.height < self.min_rows_spec()),
    {
        size.width < self.min_cols || size.height < self.min_rows
    }
}

impl Default for TerminalGuard {
    /// 80 columns by 24 rows.
    fn default() -> (g: TerminalGuard)
        ensures
            g.min_cols_spec() == 80,
            g.min_rows_spec() == 24,
    {
        TerminalGuard { min_cols: 80, min_rows: 24 }
    }
}

} // verus!
