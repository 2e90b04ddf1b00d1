//! Immutable, cheaply copyable projections of terminal state, used to
//! hand rendering data across threads. A snapshot is produced by the
//! coordinator and owned independently by each consumer; no mutable state
//! crosses the boundary.

use vstd::prelude::*;

use crate::cell::Cell;
use crate::model::TermModel;
use crate::selection::SelectionSpan;

verus! {

/// How the cursor is drawn.
#[derive(Clone, Copy, Debug, PartialEq, Eq, Structural)]
pub enum CursorShape {
    Block,
    Bar,
    Underline,
}

/// The abstract contents of a snapshot.
pub ghost struct SnapModel {
    pub rows: int,
    pub cols: int,
    /// The visible region in row-major order; `rows * cols` cells.
    pub cells: Seq<Cell>,
    pub cursor_row: int,
    pub cursor_col: int,
    pub cursor_visible: bool,
    pub cursor_shape: CursorShape,
    pub bracketed_paste: bool,
    pub app_cursor_keys: bool,
    pub title: Seq<char>,
    pub display_offset: int,
    pub scrolled_to_top: bool,
    pub scrolled_to_bottom: bool,
    pub selection: Option<SelectionSpan>,
}

/// The cells a viewer sees: the live screen shifted up by the display
/// offset into scrollback, flattened in row-major order.
pub open spec fn spec_visible(m: TermModel) -> Seq<Cell> {
    Seq::new(
        (m.rows * m.cols) as nat,
        |i: int|
            {
                let line = m.scrollback.len() - m.display_offset + i / m.cols;
                let c = i % m.cols;
                if line < m.scrollback.len() {
                    m.scrollback[line][c]
                } else {
                    m.screen[(line - m.scrollback.len()) * m.cols + c]
                }
            },
    )
}

/// The snapshot a terminal in state `m` publishes.
pub open spec fn spec_snapshot(m: TermModel) -> SnapModel {
    SnapModel {
        rows: m.rows,
        cols: m.cols,
        cells: spec_visible(m),
        cursor_row: m.cur_row,
        cursor_col: m.cur_col,
        cursor_visible: m.cursor_visible,
        cursor_shape: CursorShape::Block,
        bracketed_paste: m.bracketed_paste,
        app_cursor_keys: m.app_cursor_keys,
        title: m.title,
        display_offset: m.display_offset,
        scrolled_to_top: m.display_offset == m.scrollback.len(),
        scrolled_to_bottom: m.display_offset == 0,
        selection: m.selection,
    }
}

/// Well-formedness of a snapshot: the cell buffer matches the stated
/// extents and the cursor lies inside them.
pub open spec fn wf_snapshot(s: SnapModel) -> bool {
    &&& 1 <= s.rows <= 0xffff
    &&& 1 <= s.cols <= 0xffff
    &&& s.cells.len() == s.rows * s.cols
    &&& 0 <= s.cursor_row < s.rows
    &&& 0 <= s.cursor_col < s.cols
}

/// Snapshots of well-formed terminals are well-formed.
pub proof fn lemma_wf_snapshot(m: TermModel)
    requires
        crate::model::wf(m),
    ensures
        wf_snapshot(spec_snapshot(m)),
{
}

/// One published view of a terminal: the visible cells plus everything a
/// renderer needs. A value type; copies never share mutable state.
#[derive(Clone, Debug)]
pub struct Snapshot {
    pub rows: usize,
    pub cols: usize,
    /// The visible cells in row-major order; `rows * cols` entries.
    pub cells: Vec<Cell>,
    pub cursor_row: usize,
    pub cursor_col: usize,
    pub cursor_visible: bool,
    pub cursor_shape: CursorShape,
    pub bracketed_paste: bool,
    pub app_cursor_keys: bool,
    pub title: Vec<char>,
    pub display_offset: usize,
    pub scrolled_to_top: bool,
    pub scrolled_to_bottom: bool,
    pub selection: Option<SelectionSpan>,
}

impl View for Snapshot {
    type V = SnapModel;

    open spec fn view(&self) -> SnapModel {
        SnapModel {
            rows: self.rows as int,
            cols: self.cols as int,
            cells: self.cells@,
            cursor_row: self.cursor_row as int,
            cursor_col: self.cursor_col as int,
            cursor_visible: self.cursor_visible,
            cursor_shape: self.cursor_shape,
            bracketed_paste: self.bracketed_paste,
            app_cursor_keys: self.app_cursor_keys,
            title: self.title@,
            display_offset: self.display_offset as int,
            scrolled_to_top: self.scrolled_to_top,
            scrolled_to_bottom: self.scrolled_to_bottom,
            selection: self.selection,
        }
    }
}

impl Snapshot {
    /// The cell shown at `row`, `col` of the visible region.
    pub fn cell_at(&self, row: usize, col: usize) -> (c: Cell)
        requires
            wf_snapshot(self@),
            row < self@.rows,
            col < self@.cols,
        ensures
            c == self@.cells[row * self@.cols + col],
    {
        proof {
            crate::model::lemma_cursor_index_in_grid(
                self@.rows,
                self@.cols,
                row as int,
                col as int,
            );
            crate::model::lemma_grid_size_bound(self@.rows, self@.cols);
        }
        self.cells[row * self.cols + col]
    }

    /// An independent copy with the same contents, for handing to another
    /// consumer.
    pub fn duplicate(&self) -> (r: Snapshot)
        ensures
            r@ == self@,
    {
        let mut cells: Vec<Cell> = Vec::new();
        let mut i: usize = 0;
        while i < self.cells.len()
            invariant
                i <= self.cells@.len(),
                cells@ =~= self.cells@.take(i as int),
            decreases self.cells@.len() - i,
        {
            cells.push(self.cells[i]);
            i = i + 1;
        }
        let mut title: Vec<char> = Vec::new();
        let mut j: usize = 0;
        while j < self.title.len()
            invariant
                j <= self.title@.len(),
                title@ =~= self.title@.take(j as int),
            decreases self.title@.len() - j,
        {
            title.push(self.title[j]);
            j = j + 1;
        }
        proof {
            assert(cells@ =~= self.cells@);
            assert(title@ =~= self.title@);
        }
        Snapshot {
            rows: self.rows,
            cols: self.cols,
            cells,
            cursor_row: self.cursor_row,
            cursor_col: self.cursor_col,
            cursor_visible: self.cursor_visible,
            cursor_shape: self.cursor_shape,
            bracketed_paste: self.bracketed_paste,
            app_cursor_keys: self.app_cursor_keys,
            title,
            display_offset: self.display_offset,
            scrolled_to_top: self.scrolled_to_top,
            scrolled_to_bottom: self.scrolled_to_bottom,
            selection: self.selection,
        }
    }
}

} // verus!
