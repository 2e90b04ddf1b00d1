//! Terminal dimensions as requested by a host: character rows and columns
//! plus the pixel size of the drawing area (zero when unknown).

use vstd::prelude::*;

verus! {

/// Size of a terminal: character cells and (optional) pixels.
#[derive(Clone, Copy, Debug, PartialEq, Eq, Structural)]
pub struct TerminalSize {
    pub rows: u16,
    pub cols: u16,
    pub pixel_width: u16,
    pub pixel_height: u16,
}

impl TerminalSize {
    /// A size is usable by the engine only with at least one row and one
    /// column; zero-sized grids are rejected everywhere.
    pub open spec fn valid(self) -> bool {
        self.rows >= 1 && self.cols >= 1
    }

    /// Bundle the four extents into a size.
    pub fn new(rows: u16, cols: u16, pixel_width: u16, pixel_height: u16) -> (r: Self)
        ensures
            r.rows == rows,
            r.cols == cols,
            r.pixel_width == pixel_width,
            r.pixel_height == pixel_height,
    {
        Self { rows, cols, pixel_width, pixel_height }
    }

    /// The conventional default grid of 24 rows by 80 columns.
    pub fn default_size() -> (r: Self)
        ensures
            r.rows == 24,
            r.cols == 80,
            r.pixel_width == 0,
            r.pixel_height == 0,
            r.valid(),
    {
        Self { rows: 24, cols: 80, pixel_width: 0, pixel_height: 0 }
    }
}

} // verus!
