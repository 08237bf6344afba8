//! Cell-grid bounds for a single monitor in multi-monitor layouts.
use vstd::prelude::*;

verus! {

/// Inclusive-start / exclusive-end cell rectangle for one monitor.
#[derive(Debug, Clone, Copy, PartialEq, Eq)]
pub struct MonitorCellBounds {
    pub start_col: usize,
    pub end_col: usize,
    pub start_row: usize,
    pub end_row: usize,
    pub is_primary: bool,
}

impl MonitorCellBounds {
    /// Number of columns covered; zero when the range is empty or inverted.
    pub open spec fn spec_width(self) -> nat {
        if self.end_col >= self.start_col {
            (self.end_col - self.start_col) as nat
        } else {
            0
        }
    }

    /// Number of rows covered; zero when the range is empty or inverted.
    pub open spec fn spec_height(self) -> nat {
        if self.end_row >= self.start_row {
            (self.end_row - self.start_row) as nat
        } else {
            0
        }
    }

    /// Whether (`col`, `row`) lies in the half-open rectangle.
    pub open spec fn spec_contains(self, col: int, row: int) -> bool {
        self.start_col <= col < self.end_col && self.start_row <= row < self.end_row
    }

    pub fn width(&self) -> (w: usize)
        ensures
            w == self.spec_width(),
    {
        self.end_col.saturating_sub(self.start_col)
    }

    pub fn height(&self) -> (h: usize)
        ensures
            h == self.spec_height(),
    {
        self.end_row.saturating_sub(self.start_row)
    }

    /// Column in the middle of the bounds, rounding towards the start.
    pub fn center_col(&self) -> (c: usize)
        ensures
            c == self.start_col + self.spec_width() / 2,
    {
        self.start_col + self.width() / 2
    }

    /// Row in the middle of the bounds, rounding towards the start.
    pub fn center_row(&self) -> (r: usize)
        ensures
            r == self.start_row + self.spec_height() / 2,
    {
        self.start_row + self.height() / 2
    }

    /// Returns true if `(col, row)` is inside this bounds (half-open: `end_col`/`end_row` excluded).
    pub fn contains(&self, col: usize, row: usize) -> (b: bool)
        ensures
            b == self.spec_contains(col as int, row as int),
    {
        col >= self.start_col && col < self.end_col && row >= self.start_row && row < self.end_row
    }
}

/// Bounds that cover at least one cell contain their centre cell.
pub proof fn lemma_nonempty_contains_center(b: MonitorCellBounds)
    requires
        b.spec_width() > 0,
        b.spec_height() > 0,
    ensures
        b.spec_contains(b.start_col + b.spec_width() / 2, b.start_row + b.spec_height() / 2),
{
}

/// Bounds with no width or no height contain no cell.
pub proof fn lemma_empty_contains_nothing(b: MonitorCellBounds, col: int, row: int)
    requires
        b.spec_width() == 0 || b.spec_height() == 0,
    ensures
        !b.spec_contains(col, row),
{
}

/// A cell is contained exactly when its column lies within `width` columns
/// of the start column and its row within `height` rows of the start row.
pub proof fn lemma_contains_matches_extent(b: MonitorCellBounds, col: int, row: int)
    ensures
        b.spec_contains(col, row) <==> (b.start_col <= col < b.start_col + b.spec_width()
            && b.start_row <= row < b.start_row + b.spec_height()),
{
}

} // verus!
