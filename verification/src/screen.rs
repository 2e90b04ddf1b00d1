//! The executable terminal state machine: the character grid, cursor,
//! scrollback and escape-sequence interpreter. Every mutation is proved
//! to track the model of [`crate::model`] exactly.

use vstd::pervasive::VecAdditionalExecFns;
use vstd::prelude::*;

use crate::cell::{blank_cell, default_pen, pen_cell, Cell, Pen};
use crate::model::{
    eq_except_pen, eq_except_screen, lemma_cursor_index_in_grid, lemma_grid_at_least_one_row,
    lemma_grid_size_bound, lemma_wf_wrap, spec_apply_mode, spec_csi_dispatch, spec_fill,
    spec_linefeed, spec_new_term, spec_param, spec_param_raw, spec_print, spec_put_char,
    spec_put_wide, spec_scrolled_up, spec_set_modes, spec_sgr, spec_sgr_one, spec_tab,
    spec_wrap, wf, ParserModel, TermModel, DEFAULT_SCROLL_HISTORY_LINES,
};
use crate::selection::SelectionSpan;
use crate::snapshot::Snapshot;

verus! {

/// A request to move the view into scrollback. `Delta` counts lines,
/// positive toward older history.
#[derive(Clone, Copy, Debug, PartialEq, Eq, Structural)]
pub enum Scroll {
    Delta(i32),
    PageUp,
    PageDown,
    Top,
    Bottom,
}

/// The view offset after applying `s` in state `m`: moved by the
/// requested number of lines and clamped to `[0, scrollback.len()]`.
pub open spec fn spec_scroll_offset(m: TermModel, s: Scroll) -> int {
    let limit = m.scrollback.len() as int;
    match s {
        Scroll::Delta(d) => {
            let raw = m.display_offset + d as int;
            if raw < 0 {
                0
            } else if raw > limit {
                limit
            } else {
                raw
            }
        },
        Scroll::PageUp => {
            if m.display_offset + m.rows > limit {
                limit
            } else {
                m.display_offset + m.rows
            }
        },
        Scroll::PageDown => {
            if m.rows > m.display_offset {
                0
            } else {
                m.display_offset - m.rows
            }
        },
        Scroll::Top => limit,
        Scroll::Bottom => 0,
    }
}

/// Executable escape-sequence recognizer state; see
/// [`crate::model::ParserModel`] for the meaning of each variant.
pub enum Parser {
    Ground,
    Escape,
    EscSkip,
    Csi { private: bool, params: Vec<u16>, current: u16 },
    Osc { code: u16, in_text: bool, text: Vec<char> },
    OscEsc { code: u16, in_text: bool, text: Vec<char> },
    Utf8 { remaining: u8, acc: u32, min: u32 },
}

impl View for Parser {
    type V = ParserModel;

    open spec fn view(&self) -> ParserModel {
        match self {
            Parser::Ground => ParserModel::Ground,
            Parser::Escape => ParserModel::Escape,
            Parser::EscSkip => ParserModel::EscSkip,
            Parser::Csi { private, params, current } => ParserModel::Csi {
                private: *private,
                params: params@,
                current: *current,
            },
            Parser::Osc { code, in_text, text } => ParserModel::Osc {
                code: *code,
                in_text: *in_text,
                text: text@,
            },
            Parser::OscEsc { code, in_text, text } => ParserModel::OscEsc {
                code: *code,
                in_text: *in_text,
                text: text@,
            },
            Parser::Utf8 { remaining, acc, min } => ParserModel::Utf8 {
                remaining: *remaining,
                acc: *acc,
                min: *min,
            },
        }
    }
}

/// The state of one terminal: a grid of cells plus cursor, scrollback,
/// mode flags and interpreter state. Exclusively owned by one
/// coordinator; it is not shared between threads.
pub struct TerminalState {
    rows: usize,
    cols: usize,
    screen: Vec<Cell>,
    scrollback: Vec<Vec<Cell>>,
    limit: usize,
    cur_row: usize,
    cur_col: usize,
    pending_wrap: bool,
    cursor_visible: bool,
    pen: Pen,
    bracketed_paste: bool,
    app_cursor_keys: bool,
    title: Vec<char>,
    display_offset: usize,
    selection: Option<SelectionSpan>,
    parser: Parser,
}

impl View for TerminalState {
    type V = TermModel;

    closed spec fn view(&self) -> TermModel {
        TermModel {
            rows: self.rows as int,
            cols: self.cols as int,
            screen: self.screen@,
            scrollback: self.scrollback@.map_values(|r: Vec<Cell>| r@),
            limit: self.limit as int,
            cur_row: self.cur_row as int,
            cur_col: self.cur_col as int,
            pending_wrap: self.pending_wrap,
            cursor_visible: self.cursor_visible,
            pen: self.pen,
            bracketed_paste: self.bracketed_paste,
            app_cursor_keys: self.app_cursor_keys,
            title: self.title@,
            display_offset: self.display_offset as int,
            selection: self.selection,
            parser: self.parser@,
        }
    }
}

impl TerminalState {
    /// Create a terminal of `rows` by `cols` blank cells; both extents
    /// must be at least 1.
    pub fn new(rows: u16, cols: u16) -> (r: Self)
        requires
            rows >= 1,
            cols >= 1,
        ensures
            r@ == spec_new_term(rows, cols),
            wf(r@),
    {
        proof {
            assert((rows as int) * (cols as int) <= 0xffff * 0xffff) by (nonlinear_arith)
                requires
                    rows <= 0xffff,
                    cols <= 0xffff,
            ;
        }
        let total: usize = (rows as usize) * (cols as usize);
        let mut screen: Vec<Cell> = Vec::new();
        let mut i: usize = 0;
        while i < total
            invariant
                i <= total,
                screen@.len() == i,
                forall|j: int| 0 <= j < i ==> screen@[j] == crate::cell::spec_blank_cell(),
            decreases total - i,
        {
            screen.push(blank_cell());
            i = i + 1;
        }
        let r = TerminalState {
            rows: rows as usize,
            cols: cols as usize,
            screen,
            scrollback: Vec::new(),
            limit: DEFAULT_SCROLL_HISTORY_LINES,
            cur_row: 0,
            cur_col: 0,
            pending_wrap: false,
            cursor_visible: true,
            pen: default_pen(),
            bracketed_paste: false,
            app_cursor_keys: false,
            title: Vec::new(),
            display_offset: 0,
            selection: None,
            parser: Parser::Ground,
        };
        proof {
            assert(r@.screen =~= spec_new_term(rows, cols).screen);
            assert(r@.scrollback =~= spec_new_term(rows, cols).scrollback);
            assert(r@.title =~= spec_new_term(rows, cols).title);
            assert(r@ == spec_new_term(rows, cols));
        }
        r
    }

    /// Like [`Self::new`], but with the scrollback bound set to `limit`
    /// lines instead of the default, clamped to the hard cap.
    pub fn with_history_limit(rows: u16, cols: u16, limit: usize) -> (r: Self)
        requires
            rows >= 1,
            cols >= 1,
        ensures
            r@ == (TermModel {
                limit: crate::model::spec_clamped_limit(limit),
                ..spec_new_term(rows, cols)
            }),
            wf(r@),
    {
        let mut r = Self::new(rows, cols);
        r.limit = if limit < 1 {
            1
        } else if limit > crate::model::MAX_SCROLL_HISTORY_LINES {
            crate::model::MAX_SCROLL_HISTORY_LINES
        } else {
            limit
        };
        r
    }

    /// Scroll the screen up one row, moving the top row into scrollback.
    fn scroll_up(&mut self)
        requires
            wf(old(self)@),
        ensures
            final(self)@ == spec_scrolled_up(old(self)@),
    {
        proof {
            lemma_grid_at_least_one_row(self@.rows, self@.cols);
        }
        let ghost m = self@;
        // Copy the top row out of the grid.
        let mut top: Vec<Cell> = Vec::new();
        let mut i: usize = 0;
        while i < self.cols
            invariant
                i <= self.cols,
                self.cols <= self.screen.len(),
                top@ =~= self.screen@.subrange(0, i as int),
            decreases self.cols - i,
        {
            top.push(self.screen[i]);
            i = i + 1;
        }
        proof {
            assert(top@ =~= m.screen.subrange(0, m.cols));
        }
        // Append it to the scrollback, dropping the oldest row at the cap.
        if self.scrollback.len() >= self.limit {
            self.scrollback.remove(0);
        }
        self.scrollback.push(top);
        proof {
            assert(self@.scrollback =~= spec_scrolled_up(m).scrollback);
        }
        // Shift every remaining row up and blank the bottom row.
        let ghost mid = self@;
        let total: usize = self.screen.len();
        let keep: usize = total - self.cols;
        let mut j: usize = 0;
        while j < keep
            invariant
                j <= keep,
                keep == total - self.cols,
                self.cols <= total,
                total == self.screen.len(),
                total == m.screen.len(),
                forall|k: int| 0 <= k < j ==> self.screen@[k] == m.screen[k + m.cols],
                forall|k: int| j <= k < total ==> self.screen@[k] == m.screen[k],
                self.cols == m.cols,
                crate::model::eq_except_screen(self@, mid),
            decreases keep - j,
        {
            let c = self.screen[j + self.cols];
            self.screen.set(j, c);
            j = j + 1;
        }
        let mut k: usize = keep;
        while k < total
            invariant
                keep <= k <= total,
                total == self.screen.len(),
                total == m.screen.len(),
                keep == total - self.cols,
                forall|t: int| 0 <= t < keep ==> self.screen@[t] == m.screen[t + m.cols],
                forall|t: int| keep <= t < k ==> self.screen@[t]
                    == crate::cell::spec_blank_cell(),
                forall|t: int| k <= t < total ==> self.screen@[t] == m.screen[t],
                self.cols == m.cols,
                crate::model::eq_except_screen(self@, mid),
            decreases total - k,
        {
            self.screen.set(k, blank_cell());
            k = k + 1;
        }
        proof {
            assert(self@.screen =~= spec_scrolled_up(m).screen);
            assert(self@ =~= spec_scrolled_up(m));
        }
    }

    /// Move the cursor down one row, scrolling at the bottom.
    fn linefeed(&mut self)
        requires
            wf(old(self)@),
        ensures
            final(self)@ == spec_linefeed(old(self)@),
    {
        let ghost m = self@;
        if self.cur_row + 1 >= self.rows {
            self.scroll_up();
            self.pending_wrap = false;
        } else {
            self.cur_row = self.cur_row + 1;
            self.pending_wrap = false;
        }
    }

    /// Perform a deferred wrap: carriage return plus linefeed.
    fn wrap_line(&mut self)
        requires
            wf(old(self)@),
        ensures
            final(self)@ == spec_wrap(old(self)@),
    {
        self.linefeed();
        self.cur_col = 0;
    }

    /// Print a one-column character at the cursor.
    fn put_char(&mut self, ch: char)
        requires
            wf(old(self)@),
        ensures
            final(self)@ == spec_put_char(old(self)@, ch),
    {
        let ghost m = self@;
        if self.pending_wrap {
            self.wrap_line();
            proof {
                lemma_wf_wrap(m);
            }
        }
        let ghost m1 = self@;
        proof {
            lemma_cursor_index_in_grid(m1.rows, m1.cols, m1.cur_row, m1.cur_col);
            crate::model::lemma_grid_size_bound(m1.rows, m1.cols);
        }
        let idx: usize = self.cur_row * self.cols + self.cur_col;
        self.screen.set(idx, pen_cell(self.pen, ch));
        if self.cur_col + 1 >= self.cols {
            self.pending_wrap = true;
        } else {
            self.cur_col = self.cur_col + 1;
            self.pending_wrap = false;
        }
    }

    /// Print a two-column character: the character plus a spacer cell.
    fn put_wide(&mut self, ch: char)
        requires
            wf(old(self)@),
        ensures
            final(self)@ == spec_put_wide(old(self)@, ch),
    {
        let ghost m = self@;
        if self.cols < 2 {
            self.put_char('\u{fffd}');
            proof {
                assert(self@ == spec_put_wide(m, ch));
            }
            return ;
        }
        if self.pending_wrap {
            self.wrap_line();
            proof {
                lemma_wf_wrap(m);
            }
        }
        let ghost m1 = self@;
        if self.cur_col + 1 >= self.cols {
            self.wrap_line();
            proof {
                lemma_wf_wrap(m1);
            }
        }
        let ghost m2 = self@;
        proof {
            lemma_cursor_index_in_grid(m2.rows, m2.cols, m2.cur_row, m2.cur_col);
            lemma_cursor_index_in_grid(m2.rows, m2.cols, m2.cur_row, m2.cur_col + 1);
            crate::model::lemma_grid_size_bound(m2.rows, m2.cols);
        }
        let idx: usize = self.cur_row * self.cols + self.cur_col;
        self.screen.set(idx, pen_cell(self.pen, ch));
        let spacer = Cell {
            ch: ' ',
            fg: self.pen.fg,
            bg: self.pen.bg,
            bold: false,
            underline: false,
            inverse: false,
            wide_continuation: true,
        };
        self.screen.set(idx + 1, spacer);
        if self.cur_col + 2 >= self.cols {
            self.cur_col = self.cols - 1;
            self.pending_wrap = true;
        } else {
            self.cur_col = self.cur_col + 2;
            self.pending_wrap = false;
        }
    }

    /// Whether `ch` takes two columns; executable twin of
    /// [`crate::model::spec_is_wide_char`].
    fn is_wide_char(ch: char) -> (r: bool)
        ensures
            r == crate::model::spec_is_wide_char(ch),
    {
        let c = ch as u32;
        (0x1100 <= c && c <= 0x115f) || (0x2e80 <= c && c <= 0x303e) || (0x3041 <= c && c
            <= 0x33ff) || (0x3400 <= c && c <= 0x4dbf) || (0x4e00 <= c && c <= 0x9fff) || (0xa000
            <= c && c <= 0xa4cf) || (0xac00 <= c && c <= 0xd7a3) || (0xf900 <= c && c <= 0xfaff)
            || (0xfe30 <= c && c <= 0xfe4f) || (0xff00 <= c && c <= 0xff60) || (0xffe0 <= c && c
            <= 0xffe6) || (0x20000 <= c && c <= 0x2fffd) || (0x30000 <= c && c <= 0x3fffd)
    }

    /// Print a character, dispatching on its width.
    fn print_char(&mut self, ch: char)
        requires
            wf(old(self)@),
        ensures
            final(self)@ == spec_print(old(self)@, ch),
    {
        if Self::is_wide_char(ch) {
            self.put_wide(ch);
        } else {
            self.put_char(ch);
        }
    }

    /// Replace the cells with indices in `[lo, hi)` by `c`.
    fn erase_range(&mut self, lo: usize, hi: usize, c: Cell)
        requires
            lo <= hi <= old(self)@.screen.len(),
        ensures
            final(self)@.screen == spec_fill(old(self)@.screen, lo as int, hi as int, c),
            eq_except_screen(final(self)@, old(self)@),
    {
        let ghost m = self@;
        let mut i: usize = lo;
        while i < hi
            invariant
                lo <= i <= hi <= self.screen.len(),
                self.screen@.len() == m.screen.len(),
                forall|j: int| lo <= j < i ==> self.screen@[j] == c,
                forall|j: int| (0 <= j < lo || i <= j < m.screen.len()) ==> self.screen@[j]
                    == m.screen[j],
                eq_except_screen(self@, m),
            decreases hi - i,
        {
            self.screen.set(i, c);
            i = i + 1;
        }
        proof {
            assert(self@.screen =~= spec_fill(m.screen, lo as int, hi as int, c));
        }
    }

    /// The CSI parameter at `i`, with `default` substituted when it is
    /// absent or zero.
    fn param(params: &Vec<u16>, i: usize, default: u16) -> (r: u16)
        ensures
            r == spec_param(params@, i as int, default),
    {
        if i < params.len() && params[i] > 0 {
            params[i]
        } else {
            default
        }
    }

    /// The CSI parameter at `i`, zero when absent.
    fn param_raw(params: &Vec<u16>, i: usize) -> (r: u16)
        ensures
            r == spec_param_raw(params@, i as int),
    {
        if i < params.len() {
            params[i]
        } else {
            0
        }
    }

    /// Apply one SGR parameter to a pen; executable twin of
    /// [`crate::model::spec_sgr_one`].
    fn sgr_one(pen: Pen, p: u16) -> (r: Pen)
        ensures
            r == spec_sgr_one(pen, p),
    {
        if p == 0 {
            default_pen()
        } else if p == 1 {
            Pen { bold: true, ..pen }
        } else if p == 4 {
            Pen { underline: true, ..pen }
        } else if p == 7 {
            Pen { inverse: true, ..pen }
        } else if p == 22 {
            Pen { bold: false, ..pen }
        } else if p == 24 {
            Pen { underline: false, ..pen }
        } else if p == 27 {
            Pen { inverse: false, ..pen }
        } else if 30 <= p && p <= 37 {
            Pen { fg: crate::cell::ansi_rgb(p - 30), ..pen }
        } else if p == 39 {
            Pen { fg: crate::cell::default_fg(), ..pen }
        } else if 40 <= p && p <= 47 {
            Pen { bg: crate::cell::ansi_rgb(p - 40), ..pen }
        } else if p == 49 {
            Pen { bg: crate::cell::default_bg(), ..pen }
        } else if 90 <= p && p <= 97 {
            Pen { fg: crate::cell::ansi_rgb(p - 82), ..pen }
        } else if 100 <= p && p <= 107 {
            Pen { bg: crate::cell::ansi_rgb(p - 92), ..pen }
        } else {
            pen
        }
    }

    /// Apply every parameter of a private-mode set/reset sequence.
    fn set_modes(&mut self, params: &Vec<u16>, on: bool)
        ensures
            final(self)@ == spec_set_modes(old(self)@, params@, on),
    {
        let ghost m0 = self@;
        proof {
            assert(params@.skip(0) =~= params@);
        }
        let mut i: usize = 0;
        while i < params.len()
            invariant
                i <= params@.len(),
                spec_set_modes(m0, params@, on) == spec_set_modes(
                    self@,
                    params@.skip(i as int),
                    on,
                ),
            decreases params@.len() - i,
        {
            let ghost prev = self@;
            let p = params[i];
            if p == 1 {
                self.app_cursor_keys = on;
            } else if p == 25 {
                self.cursor_visible = on;
            } else if p == 2004 {
                self.bracketed_paste = on;
            }
            proof {
                assert(self@ == spec_apply_mode(prev, p, on));
                assert(params@.skip(i as int).skip(1) =~= params@.skip(i + 1));
                assert(params@.skip(i as int)[0] == params@[i as int]);
            }
            i = i + 1;
        }
        proof {
            assert(params@.skip(params@.len() as int) =~= Seq::<u16>::empty());
        }
    }

    /// Apply a whole SGR parameter list to the pen.
    fn apply_sgr(&mut self, params: &Vec<u16>)
        ensures
            final(self)@ == (TermModel { pen: spec_sgr(old(self)@.pen, params@), ..old(self)@ }),
    {
        let ghost m0 = self@;
        proof {
            assert(params@.skip(0) =~= params@);
        }
        let mut i: usize = 0;
        let mut stop = false;
        while i < params.len() && !stop
            invariant
                i <= params@.len(),
                eq_except_pen(self@, m0),
                !stop ==> spec_sgr(m0.pen, params@) == spec_sgr(
                    self@.pen,
                    params@.skip(i as int),
                ),
                stop ==> spec_sgr(m0.pen, params@) == self@.pen,
            decreases params@.len() - i,
        {
            let p = params[i];
            proof {
                assert(params@.skip(i as int)[0] == params@[i as int]);
            }
            if p == 38 || p == 48 {
                stop = true;
                i = params.len();
            } else {
                let ghost prev_pen = self@.pen;
                self.pen = Self::sgr_one(self.pen, p);
                proof {
                    assert(params@.skip(i as int).skip(1) =~= params@.skip(i + 1));
                }
                i = i + 1;
            }
        }
        proof {
            if !stop {
                assert(params@.skip(params@.len() as int) =~= Seq::<u16>::empty());
            }
            assert(self@ =~= (TermModel { pen: spec_sgr(m0.pen, params@), ..m0 }));
        }
    }

    /// Dispatch a completed CSI sequence with final byte `fin`.
    fn csi_dispatch(&mut self, private: bool, params: &Vec<u16>, fin: u8)
        requires
            wf(old(self)@),
        ensures
            final(self)@ == spec_csi_dispatch(old(self)@, private, params@, fin),
    {
        let ghost m = self@;
        proof {
            lemma_cursor_index_in_grid(m.rows, m.cols, m.cur_row, m.cur_col);
            lemma_grid_size_bound(m.rows, m.cols);
            assert((m.cur_row + 1) * m.cols <= m.rows * m.cols) by (nonlinear_arith)
                requires
                    0 <= m.cur_row < m.rows,
                    0 < m.cols,
            ;
            assert(m.cur_row * m.cols + m.cols == (m.cur_row + 1) * m.cols) by (nonlinear_arith);
        }
        let n = Self::param(params, 0, 1) as usize;
        if fin == 0x41 {
            // A: cursor up
            if n > self.cur_row {
                self.cur_row = 0;
            } else {
                self.cur_row = self.cur_row - n;
            }
            self.pending_wrap = false;
        } else if fin == 0x42 {
            // B: cursor down
            if self.cur_row + n >= self.rows {
                self.cur_row = self.rows - 1;
            } else {
                self.cur_row = self.cur_row + n;
            }
            self.pending_wrap = false;
        } else if fin == 0x43 {
            // C: cursor forward
            if self.cur_col + n >= self.cols {
                self.cur_col = self.cols - 1;
            } else {
                self.cur_col = self.cur_col + n;
            }
            self.pending_wrap = false;
        } else if fin == 0x44 {
            // D: cursor back
            if n > self.cur_col {
                self.cur_col = 0;
            } else {
                self.cur_col = self.cur_col - n;
            }
            self.pending_wrap = false;
        } else if fin == 0x48 || fin == 0x66 {
            // H, f: cursor position, 1-based
            let row = Self::param(params, 0, 1) as usize;
            let col = Self::param(params, 1, 1) as usize;
            self.cur_row = if row < self.rows {
                row - 1
            } else {
                self.rows - 1
            };
            self.cur_col = if col < self.cols {
                col - 1
            } else {
                self.cols - 1
            };
            self.pending_wrap = false;
        } else if fin == 0x4a {
            // J: erase in display
            let mode = Self::param_raw(params, 0);
            let e = Cell {
                ch: ' ',
                fg: self.pen.fg,
                bg: self.pen.bg,
                bold: false,
                underline: false,
                inverse: false,
                wide_continuation: false,
            };
            let idx = self.cur_row * self.cols + self.cur_col;
            let total = self.screen.len();
            if mode == 0 {
                self.erase_range(idx, total, e);
            } else if mode == 1 {
                self.erase_range(0, idx + 1, e);
            } else if mode == 2 {
                self.erase_range(0, total, e);
            } else if mode == 3 {
                self.erase_range(0, total, e);
                self.scrollback.clear();
                self.display_offset = 0;
                proof {
                    assert(self@.scrollback =~= Seq::<Seq<Cell>>::empty());
                }
            }
        } else if fin == 0x4b {
            // K: erase in line
            let mode = Self::param_raw(params, 0);
            let e = Cell {
                ch: ' ',
                fg: self.pen.fg,
                bg: self.pen.bg,
                bold: false,
                underline: false,
                inverse: false,
                wide_continuation: false,
            };
            let idx = self.cur_row * self.cols + self.cur_col;
            let start = self.cur_row * self.cols;
            if mode == 0 {
                self.erase_range(idx, start + self.cols, e);
            } else if mode == 1 {
                self.erase_range(start, idx + 1, e);
            } else if mode == 2 {
                self.erase_range(start, start + self.cols, e);
            }
        } else if fin == 0x68 {
            // h: set mode
            if private {
                self.set_modes(params, true);
            }
        } else if fin == 0x6c {
            // l: reset mode
            if private {
                self.set_modes(params, false);
            }
        } else if fin == 0x6d {
            // m: select graphic rendition
            self.apply_sgr(params);
        }
        proof {
            assert(self@ =~= spec_csi_dispatch(m, private, params@, fin));
        }
    }

    /// Move the cursor to the next tab stop.
    fn tab(&mut self)
        requires
            wf(old(self)@),
        ensures
            final(self)@ == spec_tab(old(self)@),
    {
        let next = (self.cur_col / 8 + 1) * 8;
        if next < self.cols {
            self.cur_col = next;
        } else {
            self.cur_col = self.cols - 1;
        }
        self.pending_wrap = false;
    }

    /// Interpret one byte; the executable twin of
    /// [`crate::model::spec_step`].
    #[verifier::rlimit(100)]
    fn step_byte(&mut self, b: u8)
        requires
            wf(old(self)@),
        ensures
            final(self)@ == crate::model::spec_step(old(self)@, b),
            wf(final(self)@),
    {
        let ghost m = self@;
        proof {
            crate::model::lemma_wf_step(m, b);
        }
        let mut p = Parser::Ground;
        core::mem::swap(&mut p, &mut self.parser);
        match p {
            Parser::Ground => {
                if b == 0x0d {
                    self.cur_col = 0;
                    self.pending_wrap = false;
                } else if b == 0x0a {
                    self.linefeed();
                } else if b == 0x08 {
                    if self.cur_col > 0 {
                        self.cur_col = self.cur_col - 1;
                    }
                    self.pending_wrap = false;
                } else if b == 0x09 {
                    self.tab();
                } else if b == 0x1b {
                    self.parser = Parser::Escape;
                } else if b < 0x20 || b == 0x7f {
                    // other control bytes are ignored
                } else if b <= 0x7e {
                    self.print_char(b as char);
                } else if 0xc2 <= b && b <= 0xdf {
                    self.parser = Parser::Utf8 {
                        remaining: 1,
                        acc: (b - 0xc0) as u32,
                        min: 0x80,
                    };
                } else if 0xe0 <= b && b <= 0xef {
                    self.parser = Parser::Utf8 {
                        remaining: 2,
                        acc: (b - 0xe0) as u32,
                        min: 0x800,
                    };
                } else if 0xf0 <= b && b <= 0xf4 {
                    self.parser = Parser::Utf8 {
                        remaining: 3,
                        acc: (b - 0xf0) as u32,
                        min: 0x10000,
                    };
                } else {
                    self.print_char('\u{fffd}');
                }
            },
            Parser::Escape => {
                if b == 0x5b {
                    self.parser = Parser::Csi { private: false, params: Vec::new(), current: 0 };
                } else if b == 0x5d {
                    self.parser = Parser::Osc { code: 0, in_text: false, text: Vec::new() };
                } else if b == 0x28 || b == 0x29 {
                    self.parser = Parser::EscSkip;
                } else if b == 0x1b {
                    self.parser = Parser::Escape;
                } else {
                    self.parser = Parser::Ground;
                }
            },
            Parser::EscSkip => {
                self.parser = Parser::Ground;
            },
            Parser::Csi { private, params, current } => {
                if 0x30 <= b && b <= 0x39 {
                    let cur = if current <= 999 {
                        current * 10 + (b - 0x30) as u16
                    } else {
                        current
                    };
                    self.parser = Parser::Csi { private, params, current: cur };
                } else if b == 0x3b {
                    let mut ps = params;
                    if ps.len() < 16 {
                        ps.push(current);
                    }
                    self.parser = Parser::Csi { private, params: ps, current: 0 };
                } else if b == 0x3f {
                    self.parser = Parser::Csi { private: true, params, current };
                } else if b == 0x1b {
                    self.parser = Parser::Escape;
                } else if 0x40 <= b && b <= 0x7e {
                    let mut full = params;
                    if full.len() < 16 {
                        full.push(current);
                    }
                    self.csi_dispatch(private, &full, b);
                } else {
                    self.parser = Parser::Csi { private, params, current };
                }
            },
            Parser::Osc { code, in_text, text } => {
                if b == 0x07 {
                    if code == 0 || code == 2 {
                        self.title = text;
                    }
                    self.parser = Parser::Ground;
                } else if b == 0x1b {
                    self.parser = Parser::OscEsc { code, in_text, text };
                } else if !in_text && 0x30 <= b && b <= 0x39 {
                    let c = if code <= 99 {
                        code * 10 + (b - 0x30) as u16
                    } else {
                        code
                    };
                    self.parser = Parser::Osc { code: c, in_text, text };
                } else if !in_text && b == 0x3b {
                    self.parser = Parser::Osc { code, in_text: true, text };
                } else if in_text && 0x20 <= b && b <= 0x7e {
                    let mut t = text;
                    if t.len() < 256 {
                        t.push(b as char);
                    }
                    self.parser = Parser::Osc { code, in_text, text: t };
                } else {
                    self.parser = Parser::Osc { code, in_text, text };
                }
            },
            Parser::OscEsc { code, in_text, text } => {
                if b == 0x5c {
                    if code == 0 || code == 2 {
                        self.title = text;
                    }
                    self.parser = Parser::Ground;
                } else {
                    self.parser = Parser::Ground;
                }
            },
            Parser::Utf8 { remaining, acc, min } => {
                if 0x80 <= b && b <= 0xbf {
                    let acc2 = acc * 64 + (b - 0x80) as u32;
                    if remaining == 1 {
                        if acc2 >= min && acc2 <= 0x10ffff && !(0xd800 <= acc2 && acc2
                            <= 0xdfff) {
                            match char::from_u32(acc2) {
                                Some(c) => self.print_char(c),
                                None => {
                                    proof {
                                        assert(false);
                                    }
                                },
                            }
                        } else {
                            self.print_char('\u{fffd}');
                        }
                    } else {
                        self.parser = Parser::Utf8 { remaining: remaining - 1, acc: acc2, min };
                    }
                } else {
                    self.print_char('\u{fffd}');
                }
            },
        }
        proof {
            assert(self@ =~= crate::model::spec_step(m, b));
        }
    }

    /// Feed a chunk of bytes through the interpreter. A zero-length chunk
    /// changes nothing.
    pub fn advance(&mut self, bytes: &Vec<u8>)
        requires
            wf(old(self)@),
        ensures
            final(self)@ == crate::model::spec_advance(old(self)@, bytes@),
            wf(final(self)@),
            bytes@.len() == 0 ==> final(self)@ == old(self)@,
    {
        let ghost m0 = self@;
        proof {
            assert(bytes@.take(0) =~= Seq::<u8>::empty());
        }
        let mut i: usize = 0;
        while i < bytes.len()
            invariant
                i <= bytes@.len(),
                wf(self@),
                self@ == crate::model::spec_advance(m0, bytes@.take(i as int)),
            decreases bytes@.len() - i,
        {
            let b = bytes[i];
            proof {
                crate::model::lemma_advance_snoc(m0, bytes@.take(i as int), b);
                assert(bytes@.take(i as int).push(b) =~= bytes@.take(i as int + 1));
            }
            self.step_byte(b);
            i = i + 1;
        }
        proof {
            assert(bytes@.take(bytes@.len() as int) =~= bytes@);
        }
    }

    /// Resize the grid to `rows` by `cols`. A zero extent is rejected and
    /// leaves the terminal unchanged; see [`crate::model::spec_resize`]
    /// for the accepted case. Must be paired by the host with the
    /// matching resize of the underlying terminal device.
    pub fn resize(&mut self, rows: u16, cols: u16) -> (r: Result<(), crate::errors::EngineError>)
        requires
            wf(old(self)@),
        ensures
            (rows == 0 || cols == 0) ==> (r is Err && final(self)@ == old(self)@),
            (rows >= 1 && cols >= 1) ==> (r is Ok && final(self)@ == crate::model::spec_resize(
                old(self)@,
                rows,
                cols,
            )),
            wf(final(self)@),
    {
        if rows == 0 || cols == 0 {
            return Err(crate::errors::EngineError::InvalidDimensions);
        }
        let ghost m = self@;
        let ghost target = crate::model::spec_resize(m, rows, cols);
        proof {
            crate::model::lemma_wf_resize(m, rows, cols);
            lemma_grid_size_bound(rows as int, cols as int);
            lemma_grid_size_bound(m.rows, m.cols);
        }
        let nr = rows as usize;
        let nc = cols as usize;
        // Rebuild the screen row by row.
        let mut scr: Vec<Cell> = Vec::new();
        let mut r: usize = 0;
        while r < nr
            invariant
                r <= nr,
                nr == rows as usize,
                nc == cols as usize,
                nr >= 1,
                nc >= 1,
                scr@.len() == r * nc,
                forall|i: int| 0 <= i < scr@.len() ==> scr@[i] == target.screen[i],
                self@ == m,
                wf(m),
                target == crate::model::spec_resize(m, rows, cols),
            decreases nr - r,
        {
            let mut c: usize = 0;
            proof {
                assert(r * nc + nc == (r + 1) * nc) by (nonlinear_arith);
                assert((r + 1) * nc <= nr * nc) by (nonlinear_arith)
                    requires
                        r < nr,
                        0 < nc,
                ;
                lemma_grid_size_bound(nr as int, nc as int);
            }
            while c < nc
                invariant
                    c <= nc,
                    r < nr,
                    nr >= 1,
                    nc >= 1,
                    nr == rows as usize,
                    nc == cols as usize,
                    r * nc + nc <= nr * nc <= 0xfffe0001,
                    scr@.len() == r * nc + c,
                    forall|i: int| 0 <= i < scr@.len() ==> scr@[i] == target.screen[i],
                    self@ == m,
                    wf(m),
                    target == crate::model::spec_resize(m, rows, cols),
                decreases nc - c,
            {
                let cell = if r < self.rows && c < self.cols {
                    proof {
                        lemma_cursor_index_in_grid(m.rows, m.cols, r as int, c as int);
                        lemma_grid_size_bound(m.rows, m.cols);
                    }
                    self.screen[r * self.cols + c]
                } else {
                    blank_cell()
                };
                scr.push(cell);
                proof {
                    vstd::arithmetic::div_mod::lemma_fundamental_div_mod_converse(
                        (r * nc + c) as int,
                        nc as int,
                        r as int,
                        c as int,
                    );
                    assert(scr@[r * nc + c] == target.screen[r * nc + c]);
                }
                c = c + 1;
            }
            r = r + 1;
        }
        proof {
            assert(scr@ =~= target.screen);
        }
        self.screen = scr;
        // Re-cut every scrollback row to the new width.
        let sb_len = self.scrollback.len();
        let mut sb2: Vec<Vec<Cell>> = Vec::new();
        let mut k: usize = 0;
        while k < sb_len
            invariant
                k <= sb_len,
                nc == cols as usize,
                sb_len == self.scrollback.len(),
                self.scrollback@.map_values(|row: Vec<Cell>| row@) == m.scrollback,
                sb2@.len() == k,
                forall|t: int| 0 <= t < k ==> (#[trigger] sb2@[t])@ == target.scrollback[t],
                target == crate::model::spec_resize(m, rows, cols),
            decreases sb_len - k,
        {
            let mut row: Vec<Cell> = Vec::new();
            let old_len = self.scrollback[k].len();
            let mut c: usize = 0;
            while c < nc
                invariant
                    c <= nc,
                    k < sb_len,
                    sb_len == self.scrollback.len(),
                    old_len == self.scrollback@[k as int]@.len(),
                    row@.len() == c,
                    forall|j: int| 0 <= j < c ==> row@[j] == (if j
                        < self.scrollback@[k as int]@.len() {
                        self.scrollback@[k as int]@[j]
                    } else {
                        crate::cell::spec_blank_cell()
                    }),
                decreases nc - c,
            {
                if c < old_len {
                    let cell = self.scrollback[k][c];
                    row.push(cell);
                } else {
                    row.push(blank_cell());
                }
                c = c + 1;
            }
            proof {
                assert(row@ =~= target.scrollback[k as int]);
            }
            sb2.push(row);
            k = k + 1;
        }
        self.scrollback = sb2;
        // Clamp the cursor into the new bounds and forget a pending wrap.
        if self.cur_row >= nr {
            self.cur_row = nr - 1;
        }
        if self.cur_col >= nc {
            self.cur_col = nc - 1;
        }
        self.pending_wrap = false;
        self.rows = nr;
        self.cols = nc;
        proof {
            assert(self@.scrollback =~= target.scrollback);
            assert(self@ =~= target);
        }
        Ok(())
    }

    /// Project the current state into an immutable [`Snapshot`]. Never
    /// blocks and never mutates; linear in the number of visible cells.
    pub fn snapshot(&self) -> (s: Snapshot)
        requires
            wf(self@),
        ensures
            s@ == crate::snapshot::spec_snapshot(self@),
    {
        let ghost m = self@;
        let ghost target = crate::snapshot::spec_snapshot(m);
        proof {
            lemma_grid_size_bound(m.rows, m.cols);
        }
        let base = self.scrollback.len() - self.display_offset;
        let mut cells: Vec<Cell> = Vec::new();
        let mut l: usize = 0;
        while l < self.rows
            invariant
                l <= self.rows,
                base == self.scrollback@.len() - self.display_offset,
                cells@.len() == l * self.cols,
                forall|i: int| 0 <= i < cells@.len() ==> cells@[i] == target.cells[i],
                wf(self@),
                self@ == m,
                target == crate::snapshot::spec_snapshot(m),
            decreases self.rows - l,
        {
            let mut c: usize = 0;
            proof {
                assert(l * m.cols + m.cols == (l + 1) * m.cols) by (nonlinear_arith);
                assert((l + 1) * m.cols <= m.rows * m.cols) by (nonlinear_arith)
                    requires
                        l < m.rows,
                        0 < m.cols,
                ;
                lemma_grid_size_bound(m.rows, m.cols);
            }
            while c < self.cols
                invariant
                    c <= self.cols,
                    l < self.rows,
                    base == self.scrollback@.len() - self.display_offset,
                    l * self.cols + self.cols <= self.rows * self.cols <= 0xfffe0001,
                    cells@.len() == l * self.cols + c,
                    forall|i: int| 0 <= i < cells@.len() ==> cells@[i] == target.cells[i],
                    wf(self@),
                    self@ == m,
                    target == crate::snapshot::spec_snapshot(m),
                decreases self.cols - c,
            {
                let line = base + l;
                let cell = if line < self.scrollback.len() {
                    proof {
                        assert(self.scrollback@[line as int]@ == m.scrollback[line as int]);
                        assert(m.scrollback[line as int].len() == m.cols);
                    }
                    self.scrollback[line][c]
                } else {
                    let sr = line - self.scrollback.len();
                    proof {
                        lemma_cursor_index_in_grid(m.rows, m.cols, sr as int, c as int);
                    }
                    self.screen[sr * self.cols + c]
                };
                cells.push(cell);
                proof {
                    vstd::arithmetic::div_mod::lemma_fundamental_div_mod_converse(
                        (l * self.cols + c) as int,
                        m.cols,
                        l as int,
                        c as int,
                    );
                    assert(cells@[l * self.cols + c] == target.cells[l * self.cols + c]);
                }
                c = c + 1;
            }
            l = l + 1;
        }
        let mut title: Vec<char> = Vec::new();
        let mut j: usize = 0;
        while j < self.title.len()
            invariant
                j <= self.title@.len(),
                title@ =~= self.title@.take(j as int),
                self@ == m,
            decreases self.title@.len() - j,
        {
            title.push(self.title[j]);
            j = j + 1;
        }
        let s = Snapshot {
            rows: self.rows,
            cols: self.cols,
            cells,
            cursor_row: self.cur_row,
            cursor_col: self.cur_col,
            cursor_visible: self.cursor_visible,
            cursor_shape: crate::snapshot::CursorShape::Block,
            bracketed_paste: self.bracketed_paste,
            app_cursor_keys: self.app_cursor_keys,
            title,
            display_offset: self.display_offset,
            scrolled_to_top: self.display_offset == self.scrollback.len(),
            scrolled_to_bottom: self.display_offset == 0,
            selection: self.selection,
        };
        proof {
            assert(s@.cells =~= target.cells);
            assert(s@.title =~= target.title);
            assert(s@ =~= target);
        }
        s
    }

    /// Change the view offset into scrollback; the live grid, cursor and
    /// modes are untouched.
    pub fn scroll(&mut self, s: Scroll)
        requires
            wf(old(self)@),
        ensures
            final(self)@ == (TermModel {
                display_offset: spec_scroll_offset(old(self)@, s),
                ..old(self)@
            }),
            wf(final(self)@),
    {
        let limit = self.scrollback.len();
        match s {
            Scroll::Delta(d) => {
                if d >= 0 {
                    let up = d as usize;
                    if up > limit - self.display_offset {
                        self.display_offset = limit;
                    } else {
                        self.display_offset = self.display_offset + up;
                    }
                } else {
                    let down = (-(d as i64)) as usize;
                    if down > self.display_offset {
                        self.display_offset = 0;
                    } else {
                        self.display_offset = self.display_offset - down;
                    }
                }
            },
            Scroll::PageUp => {
                if self.rows > limit - self.display_offset {
                    self.display_offset = limit;
                } else {
                    self.display_offset = self.display_offset + self.rows;
                }
            },
            Scroll::PageDown => {
                if self.rows > self.display_offset {
                    self.display_offset = 0;
                } else {
                    self.display_offset = self.display_offset - self.rows;
                }
            },
            Scroll::Top => {
                self.display_offset = limit;
            },
            Scroll::Bottom => {
                self.display_offset = 0;
            },
        }
    }

    /// Replace the highlighted region.
    pub fn set_selection(&mut self, sel: Option<SelectionSpan>)
        ensures
            final(self)@ == (TermModel { selection: sel, ..old(self)@ }),
    {
        self.selection = sel;
    }

    /// The screen height in rows.
    pub fn rows(&self) -> (r: usize)
        ensures
            r == self@.rows,
    {
        self.rows
    }

    /// The screen width in columns.
    pub fn cols(&self) -> (r: usize)
        ensures
            r == self@.cols,
    {
        self.cols
    }

    /// Whether bracketed-paste mode is on.
    pub fn bracketed_paste(&self) -> (r: bool)
        ensures
            r == self@.bracketed_paste,
    {
        self.bracketed_paste
    }

    /// Whether application-cursor-keys mode is on.
    pub fn app_cursor_keys(&self) -> (r: bool)
        ensures
            r == self@.app_cursor_keys,
    {
        self.app_cursor_keys
    }

    /// The cursor position, `(row, column)`.
    pub fn cursor(&self) -> (r: (usize, usize))
        ensures
            r.0 == self@.cur_row,
            r.1 == self@.cur_col,
    {
        (self.cur_row, self.cur_col)
    }

    /// The size of the grid, `(rows, columns)`.
    pub fn size(&self) -> (r: (usize, usize))
        ensures
            r.0 == self@.rows,
            r.1 == self@.cols,
    {
        (self.rows, self.cols)
    }

    /// Whether the view is scrolled all the way into the oldest history.
    pub fn scrolled_to_top(&self) -> (r: bool)
        ensures
            r == (self@.display_offset == self@.scrollback.len()),
    {
        self.display_offset == self.scrollback.len()
    }

    /// Whether the view shows the live screen.
    pub fn scrolled_to_bottom(&self) -> (r: bool)
        ensures
            r == (self@.display_offset == 0),
    {
        self.display_offset == 0
    }

    /// The terminal's title, as set by the title escape sequence.
    pub fn title(&self) -> (t: &Vec<char>)
        ensures
            t@ == self@.title,
    {
        &self.title
    }
}

} // verus!
