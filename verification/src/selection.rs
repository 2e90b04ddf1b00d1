//! A highlighted range of grid coordinates.

use vstd::prelude::*;

verus! {

/// An inclusive start/end pair of grid coordinates marking a highlighted
/// region. Coordinates are rows and columns of the visible screen.
#[derive(Clone, Copy, Debug, PartialEq, Eq, Structural)]
pub struct SelectionSpan {
    pub start_row: usize,
    pub start_col: usize,
    pub end_row: usize,
    pub end_col: usize,
}

} // verus!
