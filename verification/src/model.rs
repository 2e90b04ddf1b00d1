//! The mathematical model of the terminal: a ghost state record and a
//! step function giving the meaning of every input byte.
//!
//! The executable interpreter in [`crate::screen`] is proved to track
//! [`spec_advance`] exactly, so every property of the engine can be stated
//! and proved over this model alone.

use vstd::prelude::*;

use crate::cell::{
    spec_ansi_rgb, spec_blank_cell, spec_default_pen, spec_pen_cell, Cell, Pen, Rgb,
};
use crate::selection::SelectionSpan;

verus! {

/// Scrollback kept by a freshly created terminal, in lines.
pub const DEFAULT_SCROLL_HISTORY_LINES: usize = 10000;

/// Hard cap on the scrollback of any terminal, in lines.
pub const MAX_SCROLL_HISTORY_LINES: usize = 100000;

/// The escape-sequence recognizer's position inside the byte stream.
pub ghost enum ParserModel {
    /// Plain text: bytes print or act as control codes.
    Ground,
    /// An ESC byte has been seen.
    Escape,
    /// A two-byte escape (charset designation); the next byte is consumed.
    EscSkip,
    /// Inside a CSI sequence: `ESC [ params... final`.
    Csi { private: bool, params: Seq<u16>, current: u16 },
    /// Inside an OSC sequence: `ESC ] code ; text BEL`.
    Osc { code: u16, in_text: bool, text: Seq<char> },
    /// An ESC seen inside an OSC sequence; `\` completes the terminator.
    OscEsc { code: u16, in_text: bool, text: Seq<char> },
    /// Inside a UTF-8 multi-byte encoding: `remaining` continuation bytes
    /// are still expected, `acc` holds the bits decoded so far, and `min`
    /// is the least code point the encoding length may legally produce.
    Utf8 { remaining: u8, acc: u32, min: u32 },
}

/// The full abstract state of one terminal.
pub ghost struct TermModel {
    /// Screen height in character rows; at least 1.
    pub rows: int,
    /// Screen width in character columns; at least 1.
    pub cols: int,
    /// The visible grid in row-major order; length `rows * cols`.
    pub screen: Seq<Cell>,
    /// Rows that scrolled off the top, oldest first; each of length `cols`.
    pub scrollback: Seq<Seq<Cell>>,
    /// Upper bound on `scrollback`; the oldest row is dropped beyond it.
    pub limit: int,
    /// Cursor row, in `[0, rows)`.
    pub cur_row: int,
    /// Cursor column, in `[0, cols)`.
    pub cur_col: int,
    /// Set after writing into the last column: the next printed character
    /// first wraps to the next row (deferred wrap).
    pub pending_wrap: bool,
    /// Whether the cursor is drawn; toggled by `CSI ? 25 h/l`.
    pub cursor_visible: bool,
    /// Colors and style flags the next character is written with.
    pub pen: Pen,
    /// Bracketed-paste mode; toggled by `CSI ? 2004 h/l`.
    pub bracketed_paste: bool,
    /// Application-cursor-keys mode; toggled by `CSI ? 1 h/l`.
    pub app_cursor_keys: bool,
    /// Window title, set by `OSC 0/2`.
    pub title: Seq<char>,
    /// How many scrollback lines the view is scrolled up; 0 is the live
    /// screen, at most `scrollback.len()`.
    pub display_offset: int,
    /// The highlighted region, if any.
    pub selection: Option<SelectionSpan>,
    /// Escape-sequence recognizer state.
    pub parser: ParserModel,
}

/// Well-formedness of the recognizer state; the bounds on `acc` make the
/// accumulation `acc * 64 + bits` fit in a `u32` at every step.
pub open spec fn wf_parser(p: ParserModel) -> bool {
    match p {
        ParserModel::Csi { params, .. } => params.len() <= 16,
        ParserModel::Osc { text, .. } => text.len() <= 256,
        ParserModel::OscEsc { text, .. } => text.len() <= 256,
        ParserModel::Utf8 { remaining, acc, min } => {
            &&& 1 <= remaining <= 3
            &&& (remaining == 3 ==> acc <= 0x7)
            &&& (remaining == 2 ==> acc <= 0x3ff)
            &&& (remaining == 1 ==> acc <= 0xffff)
        },
        _ => true,
    }
}

/// Well-formedness of a terminal state: the grid really is `rows * cols`
/// cells, every scrollback row is `cols` wide, and the cursor and the
/// display offset are in range. Every operation of the model preserves it.
pub open spec fn wf(m: TermModel) -> bool {
    &&& 1 <= m.rows <= 0xffff
    &&& 1 <= m.cols <= 0xffff
    &&& m.screen.len() == m.rows * m.cols
    &&& forall|i: int|
        0 <= i < m.scrollback.len() ==> (#[trigger] m.scrollback[i]).len() == m.cols
    &&& 1 <= m.limit <= MAX_SCROLL_HISTORY_LINES
    &&& m.scrollback.len() <= m.limit
    &&& 0 <= m.cur_row < m.rows
    &&& 0 <= m.cur_col < m.cols
    &&& 0 <= m.display_offset <= m.scrollback.len()
    &&& wf_parser(m.parser)
}

/// A row of `cols` blank cells.
pub open spec fn spec_blank_row(cols: int) -> Seq<Cell> {
    Seq::new(cols as nat, |i: int| spec_blank_cell())
}

/// The state of a freshly created `rows` by `cols` terminal: an all-blank
/// grid, no history, the cursor at the origin, default modes.
pub open spec fn spec_new_term(rows: u16, cols: u16) -> TermModel {
    TermModel {
        rows: rows as int,
        cols: cols as int,
        screen: Seq::new((rows * cols) as nat, |i: int| spec_blank_cell()),
        scrollback: Seq::empty(),
        limit: DEFAULT_SCROLL_HISTORY_LINES as int,
        cur_row: 0,
        cur_col: 0,
        pending_wrap: false,
        cursor_visible: true,
        pen: spec_default_pen(),
        bracketed_paste: false,
        app_cursor_keys: false,
        title: Seq::empty(),
        display_offset: 0,
        selection: None,
        parser: ParserModel::Ground,
    }
}

/// A requested scrollback bound, clamped into `[1, MAX]`: the ring is
/// bounded whatever the host asks for.
pub open spec fn spec_clamped_limit(limit: usize) -> int {
    if limit < 1 {
        1
    } else if limit > MAX_SCROLL_HISTORY_LINES {
        MAX_SCROLL_HISTORY_LINES as int
    } else {
        limit as int
    }
}

/// Scroll the screen up one row: the top row moves into scrollback (the
/// oldest history row is dropped if the limit is reached) and a blank row
/// appears at the bottom. The cursor does not move.
pub open spec fn spec_scrolled_up(m: TermModel) -> TermModel {
    let top = m.screen.subrange(0, m.cols);
    let sb = if m.scrollback.len() >= m.limit {
        m.scrollback.subrange(1, m.scrollback.len() as int).push(top)
    } else {
        m.scrollback.push(top)
    };
    TermModel {
        screen: m.screen.subrange(m.cols, m.screen.len() as int) + spec_blank_row(m.cols),
        scrollback: sb,
        ..m
    }
}

/// Move the cursor down one row, scrolling at the bottom of the screen.
pub open spec fn spec_linefeed(m: TermModel) -> TermModel {
    if m.cur_row + 1 >= m.rows {
        TermModel { pending_wrap: false, ..spec_scrolled_up(m) }
    } else {
        TermModel { cur_row: m.cur_row + 1, pending_wrap: false, ..m }
    }
}

/// Perform a deferred wrap: carriage-return plus linefeed.
pub open spec fn spec_wrap(m: TermModel) -> TermModel {
    TermModel { cur_col: 0, ..spec_linefeed(m) }
}

/// The cell written when erasing with pen `pen`: a space carrying the
/// pen's colors and no style flags.
pub open spec fn spec_erase_cell(pen: Pen) -> Cell {
    Cell {
        ch: ' ',
        fg: pen.fg,
        bg: pen.bg,
        bold: false,
        underline: false,
        inverse: false,
        wide_continuation: false,
    }
}

/// The spacer cell written to the right of a wide character.
pub open spec fn spec_spacer_cell(pen: Pen) -> Cell {
    Cell {
        ch: ' ',
        fg: pen.fg,
        bg: pen.bg,
        bold: false,
        underline: false,
        inverse: false,
        wide_continuation: true,
    }
}

/// Replace the cells of `screen` with indices in `[lo, hi)` by `c`.
pub open spec fn spec_fill(screen: Seq<Cell>, lo: int, hi: int, c: Cell) -> Seq<Cell> {
    Seq::new(screen.len(), |i: int| if lo <= i < hi { c } else { screen[i] })
}

/// Whether `ch` occupies two columns. An approximation of the East Asian
/// Wide and Fullwidth classes over the common CJK blocks.
pub open spec fn spec_is_wide_char(ch: char) -> bool {
    let c = ch as u32;
    ||| 0x1100 <= c <= 0x115f
    ||| 0x2e80 <= c <= 0x303e
    ||| 0x3041 <= c <= 0x33ff
    ||| 0x3400 <= c <= 0x4dbf
    ||| 0x4e00 <= c <= 0x9fff
    ||| 0xa000 <= c <= 0xa4cf
    ||| 0xac00 <= c <= 0xd7a3
    ||| 0xf900 <= c <= 0xfaff
    ||| 0xfe30 <= c <= 0xfe4f
    ||| 0xff00 <= c <= 0xff60
    ||| 0xffe0 <= c <= 0xffe6
    ||| 0x20000 <= c <= 0x2fffd
    ||| 0x30000 <= c <= 0x3fffd
}

/// Print a one-column character at the cursor with standard wrap
/// semantics: a pending wrap is performed first; writing into the last
/// column sets the pending-wrap flag instead of moving the cursor.
pub open spec fn spec_put_char(m: TermModel, ch: char) -> TermModel {
    let m1 = if m.pending_wrap {
        spec_wrap(m)
    } else {
        m
    };
    let idx = m1.cur_row * m1.cols + m1.cur_col;
    let scr = m1.screen.update(idx, spec_pen_cell(m1.pen, ch));
    if m1.cur_col + 1 >= m1.cols {
        TermModel { screen: scr, pending_wrap: true, ..m1 }
    } else {
        TermModel { screen: scr, cur_col: m1.cur_col + 1, pending_wrap: false, ..m1 }
    }
}

/// Print a two-column character: the character cell plus a spacer cell.
/// If the character does not fit in the current row it wraps first; on a
/// one-column screen it degrades to a replacement character.
pub open spec fn spec_put_wide(m: TermModel, ch: char) -> TermModel {
    if m.cols < 2 {
        spec_put_char(m, '\u{fffd}')
    } else {
        let m1 = if m.pending_wrap {
            spec_wrap(m)
        } else {
            m
        };
        let m2 = if m1.cur_col + 1 >= m1.cols {
            spec_wrap(m1)
        } else {
            m1
        };
        let idx = m2.cur_row * m2.cols + m2.cur_col;
        let scr = m2.screen.update(idx, spec_pen_cell(m2.pen, ch)).update(
            idx + 1,
            spec_spacer_cell(m2.pen),
        );
        if m2.cur_col + 2 >= m2.cols {
            TermModel { screen: scr, cur_col: m2.cols - 1, pending_wrap: true, ..m2 }
        } else {
            TermModel { screen: scr, cur_col: m2.cur_col + 2, pending_wrap: false, ..m2 }
        }
    }
}

/// Print a character, dispatching on its width.
pub open spec fn spec_print(m: TermModel, ch: char) -> TermModel {
    if spec_is_wide_char(ch) {
        spec_put_wide(m, ch)
    } else {
        spec_put_char(m, ch)
    }
}

/// Move the cursor to the next tab stop (every eight columns), without
/// wrapping past the last column.
pub open spec fn spec_tab(m: TermModel) -> TermModel {
    let next = (m.cur_col / 8 + 1) * 8;
    let col = if next < m.cols {
        next
    } else {
        m.cols - 1
    };
    TermModel { cur_col: col, pending_wrap: false, ..m }
}

/// The `i`-th CSI parameter, with `default` substituted when it is absent
/// or zero.
pub open spec fn spec_param(params: Seq<u16>, i: int, default: u16) -> u16 {
    if 0 <= i < params.len() && params[i] > 0 {
        params[i]
    } else {
        default
    }
}

/// The `i`-th CSI parameter, zero when absent.
pub open spec fn spec_param_raw(params: Seq<u16>, i: int) -> u16 {
    if 0 <= i < params.len() {
        params[i]
    } else {
        0
    }
}

/// Apply one private-mode parameter of `CSI ? ... h/l`.
pub open spec fn spec_apply_mode(m: TermModel, p: u16, on: bool) -> TermModel {
    if p == 1 {
        TermModel { app_cursor_keys: on, ..m }
    } else if p == 25 {
        TermModel { cursor_visible: on, ..m }
    } else if p == 2004 {
        TermModel { bracketed_paste: on, ..m }
    } else {
        m
    }
}

/// Apply every parameter of a private-mode set/reset sequence, in order.
pub open spec fn spec_set_modes(m: TermModel, params: Seq<u16>, on: bool) -> TermModel
    decreases params.len(),
{
    if params.len() == 0 {
        m
    } else {
        spec_set_modes(spec_apply_mode(m, params[0], on), params.skip(1), on)
    }
}

/// Apply one SGR parameter to the pen.
pub open spec fn spec_sgr_one(pen: Pen, p: u16) -> Pen {
    if p == 0 {
        spec_default_pen()
    } else if p == 1 {
        Pen { bold: true, ..pen }
    } else if p == 4 {
        Pen { underline: true, ..pen }
    } else if p == 7 {
        Pen { inverse: true, ..pen }
    } else if p == 22 {
        Pen { bold: false, ..pen }
    } else if p == 24 {
        Pen { underline: false, ..pen }
    } else if p == 27 {
        Pen { inverse: false, ..pen }
    } else if 30 <= p <= 37 {
        Pen { fg: spec_ansi_rgb((p - 30) as u16), ..pen }
    } else if p == 39 {
        Pen { fg: spec_default_pen().fg, ..pen }
    } else if 40 <= p <= 47 {
        Pen { bg: spec_ansi_rgb((p - 40) as u16), ..pen }
    } else if p == 49 {
        Pen { bg: spec_default_pen().bg, ..pen }
    } else if 90 <= p <= 97 {
        Pen { fg: spec_ansi_rgb((p - 82) as u16), ..pen }
    } else if 100 <= p <= 107 {
        Pen { bg: spec_ansi_rgb((p - 92) as u16), ..pen }
    } else {
        pen
    }
}

/// Apply a whole SGR parameter list to the pen, in order. The extended
/// color introducers 38 and 48 take sub-parameters this engine does not
/// interpret; they end the processing of the list.
pub open spec fn spec_sgr(pen: Pen, params: Seq<u16>) -> Pen
    decreases params.len(),
{
    if params.len() == 0 {
        pen
    } else if params[0] == 38 || params[0] == 48 {
        pen
    } else {
        spec_sgr(spec_sgr_one(pen, params[0]), params.skip(1))
    }
}

/// The smaller of two ints.
pub open spec fn spec_min(a: int, b: int) -> int {
    if a < b {
        a
    } else {
        b
    }
}

/// The larger of two ints.
pub open spec fn spec_max(a: int, b: int) -> int {
    if a > b {
        a
    } else {
        b
    }
}

/// Dispatch a completed CSI sequence with final byte `fin`.
pub open spec fn spec_csi_dispatch(
    m: TermModel,
    private: bool,
    params: Seq<u16>,
    fin: u8,
) -> TermModel {
    let n = spec_param(params, 0, 1) as int;
    let idx = m.cur_row * m.cols + m.cur_col;
    if fin == 0x41 {  // A: cursor up
        TermModel { cur_row: spec_max(m.cur_row - n, 0), pending_wrap: false, ..m }
    } else if fin == 0x42 {  // B: cursor down
        TermModel { cur_row: spec_min(m.cur_row + n, m.rows - 1), pending_wrap: false, ..m }
    } else if fin == 0x43 {  // C: cursor forward
        TermModel { cur_col: spec_min(m.cur_col + n, m.cols - 1), pending_wrap: false, ..m }
    } else if fin == 0x44 {  // D: cursor back
        TermModel { cur_col: spec_max(m.cur_col - n, 0), pending_wrap: false, ..m }
    } else if fin == 0x48 || fin == 0x66 {  // H, f: cursor position (1-based)
        let row = spec_min(spec_param(params, 0, 1) as int, m.rows) - 1;
        let col = spec_min(spec_param(params, 1, 1) as int, m.cols) - 1;
        TermModel { cur_row: row, cur_col: col, pending_wrap: false, ..m }
    } else if fin == 0x4a {  // J: erase in display
        let mode = spec_param_raw(params, 0);
        let e = spec_erase_cell(m.pen);
        if mode == 0 {
            TermModel { screen: spec_fill(m.screen, idx, m.screen.len() as int, e), ..m }
        } else if mode == 1 {
            TermModel { screen: spec_fill(m.screen, 0, idx + 1, e), ..m }
        } else if mode == 2 {
            TermModel { screen: spec_fill(m.screen, 0, m.screen.len() as int, e), ..m }
        } else if mode == 3 {
            TermModel {
                screen: spec_fill(m.screen, 0, m.screen.len() as int, e),
                scrollback: Seq::empty(),
                display_offset: 0,
                ..m
            }
        } else {
            m
        }
    } else if fin == 0x4b {  // K: erase in line
        let mode = spec_param_raw(params, 0);
        let e = spec_erase_cell(m.pen);
        let start = m.cur_row * m.cols;
        if mode == 0 {
            TermModel { screen: spec_fill(m.screen, idx, start + m.cols, e), ..m }
        } else if mode == 1 {
            TermModel { screen: spec_fill(m.screen, start, idx + 1, e), ..m }
        } else if mode == 2 {
            TermModel { screen: spec_fill(m.screen, start, start + m.cols, e), ..m }
        } else {
            m
        }
    } else if fin == 0x68 {  // h: set mode
        if private {
            spec_set_modes(m, params, true)
        } else {
            m
        }
    } else if fin == 0x6c {  // l: reset mode
        if private {
            spec_set_modes(m, params, false)
        } else {
            m
        }
    } else if fin == 0x6d {  // m: select graphic rendition
        TermModel { pen: spec_sgr(m.pen, params), ..m }
    } else {
        m
    }
}

/// One step of the recognizer from the `Ground` state.
pub open spec fn spec_ground(m: TermModel, b: u8) -> TermModel {
    if b == 0x0d {  // carriage return
        TermModel { cur_col: 0, pending_wrap: false, ..m }
    } else if b == 0x0a {  // line feed
        spec_linefeed(m)
    } else if b == 0x08 {  // backspace
        TermModel {
            cur_col: if m.cur_col > 0 {
                m.cur_col - 1
            } else {
                0
            },
            pending_wrap: false,
            ..m
        }
    } else if b == 0x09 {  // horizontal tab
        spec_tab(m)
    } else if b == 0x1b {  // escape
        TermModel { parser: ParserModel::Escape, ..m }
    } else if b < 0x20 || b == 0x7f {  // other control bytes are ignored
        m
    } else if b <= 0x7e {  // printable ASCII
        spec_print(m, b as char)
    } else if 0xc2 <= b <= 0xdf {  // two-byte UTF-8 leader
        TermModel {
            parser: ParserModel::Utf8 {
                remaining: 1,
                acc: (b - 0xc0) as u32,
                min: 0x80,
            },
            ..m
        }
    } else if 0xe0 <= b <= 0xef {  // three-byte UTF-8 leader
        TermModel {
            parser: ParserModel::Utf8 {
                remaining: 2,
                acc: (b - 0xe0) as u32,
                min: 0x800,
            },
            ..m
        }
    } else if 0xf0 <= b <= 0xf4 {  // four-byte UTF-8 leader
        TermModel {
            parser: ParserModel::Utf8 {
                remaining: 3,
                acc: (b - 0xf0) as u32,
                min: 0x10000,
            },
            ..m
        }
    } else {  // invalid UTF-8 byte
        spec_print(m, '\u{fffd}')
    }
}

/// Commit a completed OSC sequence: codes 0 and 2 set the title.
pub open spec fn spec_osc_commit(m: TermModel, code: u16, text: Seq<char>) -> TermModel {
    if code == 0 || code == 2 {
        TermModel { title: text, parser: ParserModel::Ground, ..m }
    } else {
        TermModel { parser: ParserModel::Ground, ..m }
    }
}

/// One step of the whole interpreter: the meaning of byte `b` in state `m`.
pub open spec fn spec_step(m: TermModel, b: u8) -> TermModel {
    match m.parser {
        ParserModel::Ground => spec_ground(m, b),
        ParserModel::Escape => {
            if b == 0x5b {  // [
                TermModel {
                    parser: ParserModel::Csi { private: false, params: Seq::empty(), current: 0 },
                    ..m
                }
            } else if b == 0x5d {  // ]
                TermModel {
                    parser: ParserModel::Osc { code: 0, in_text: false, text: Seq::empty() },
                    ..m
                }
            } else if b == 0x28 || b == 0x29 {  // ( or ): charset designation
                TermModel { parser: ParserModel::EscSkip, ..m }
            } else if b == 0x1b {
                m
            } else {
                TermModel { parser: ParserModel::Ground, ..m }
            }
        },
        ParserModel::EscSkip => TermModel { parser: ParserModel::Ground, ..m },
        ParserModel::Csi { private, params, current } => {
            if 0x30 <= b <= 0x39 {  // digit
                let cur = if current <= 999 {
                    (current * 10 + (b - 0x30) as u16) as u16
                } else {
                    current
                };
                TermModel { parser: ParserModel::Csi { private, params, current: cur }, ..m }
            } else if b == 0x3b {  // ;
                let ps = if params.len() < 16 {
                    params.push(current)
                } else {
                    params
                };
                TermModel { parser: ParserModel::Csi { private, params: ps, current: 0 }, ..m }
            } else if b == 0x3f {  // ?
                TermModel { parser: ParserModel::Csi { private: true, params, current }, ..m }
            } else if b == 0x1b {
                TermModel { parser: ParserModel::Escape, ..m }
            } else if 0x40 <= b <= 0x7e {  // final byte
                let full = if params.len() < 16 {
                    params.push(current)
                } else {
                    params
                };
                spec_csi_dispatch(
                    TermModel { parser: ParserModel::Ground, ..m },
                    private,
                    full,
                    b,
                )
            } else {  // intermediates and stray controls are ignored
                m
            }
        },
        ParserModel::Osc { code, in_text, text } => {
            if b == 0x07 {  // BEL terminates
                spec_osc_commit(m, code, text)
            } else if b == 0x1b {
                TermModel { parser: ParserModel::OscEsc { code, in_text, text }, ..m }
            } else if !in_text && 0x30 <= b <= 0x39 {
                let c = if code <= 99 {
                    (code * 10 + (b - 0x30) as u16) as u16
                } else {
                    code
                };
                TermModel { parser: ParserModel::Osc { code: c, in_text, text }, ..m }
            } else if !in_text && b == 0x3b {
                TermModel { parser: ParserModel::Osc { code, in_text: true, text }, ..m }
            } else if in_text && 0x20 <= b <= 0x7e {
                let t = if text.len() < 256 {
                    text.push(b as char)
                } else {
                    text
                };
                TermModel { parser: ParserModel::Osc { code, in_text, text: t }, ..m }
            } else {
                m
            }
        },
        ParserModel::OscEsc { code, in_text, text } => {
            if b == 0x5c {  // backslash completes the ST terminator
                spec_osc_commit(m, code, text)
            } else {
                TermModel { parser: ParserModel::Ground, ..m }
            }
        },
        ParserModel::Utf8 { remaining, acc, min } => {
            if 0x80 <= b <= 0xbf {
                let acc2 = (acc * 64 + (b - 0x80) as u32) as u32;
                if remaining == 1 {
                    let mg = TermModel { parser: ParserModel::Ground, ..m };
                    if acc2 >= min && acc2 <= 0x10ffff && !(0xd800 <= acc2 <= 0xdfff) {
                        spec_print(mg, acc2 as char)
                    } else {
                        spec_print(mg, '\u{fffd}')
                    }
                } else {
                    TermModel {
                        parser: ParserModel::Utf8 { remaining: (remaining - 1) as u8, acc: acc2, min },
                        ..m
                    }
                }
            } else {
                // invalid continuation byte; the offending byte is discarded
                spec_print(TermModel { parser: ParserModel::Ground, ..m }, '\u{fffd}')
            }
        },
    }
}

/// Resize the terminal to `nr` by `nc` (both at least 1). Each row is
/// truncated or blank-padded to the new width, the grid keeps its topmost
/// rows when shrinking and gains blank rows at the bottom when growing,
/// scrollback rows are re-cut to the new width, the cursor is clamped into
/// the new bounds, and any pending wrap is forgotten.
pub open spec fn spec_resize(m: TermModel, nr: u16, nc: u16) -> TermModel {
    TermModel {
        rows: nr as int,
        cols: nc as int,
        screen: Seq::new(
            (nr * nc) as nat,
            |i: int|
                {
                    let r = i / (nc as int);
                    let c = i % (nc as int);
                    if r < m.rows && c < m.cols {
                        m.screen[r * m.cols + c]
                    } else {
                        spec_blank_cell()
                    }
                },
        ),
        scrollback: m.scrollback.map_values(
            |row: Seq<Cell>|
                Seq::new(
                    nc as nat,
                    |j: int|
                        if j < row.len() {
                            row[j]
                        } else {
                            spec_blank_cell()
                        },
                ),
        ),
        cur_row: spec_min(m.cur_row, nr as int - 1),
        cur_col: spec_min(m.cur_col, nc as int - 1),
        pending_wrap: false,
        ..m
    }
}

/// The meaning of a whole chunk of bytes: `spec_step` folded over `s`.
pub open spec fn spec_advance(m: TermModel, s: Seq<u8>) -> TermModel
    decreases s.len(),
{
    if s.len() == 0 {
        m
    } else {
        spec_advance(spec_step(m, s[0]), s.skip(1))
    }
}

/// Two states that agree on everything except the screen contents; used
/// as a frame condition by loops that rewrite cells in place.
pub open spec fn eq_except_screen(a: TermModel, b: TermModel) -> bool {
    &&& a.rows == b.rows
    &&& a.cols == b.cols
    &&& a.scrollback == b.scrollback
    &&& a.limit == b.limit
    &&& a.cur_row == b.cur_row
    &&& a.cur_col == b.cur_col
    &&& a.pending_wrap == b.pending_wrap
    &&& a.cursor_visible == b.cursor_visible
    &&& a.pen == b.pen
    &&& a.bracketed_paste == b.bracketed_paste
    &&& a.app_cursor_keys == b.app_cursor_keys
    &&& a.title == b.title
    &&& a.display_offset == b.display_offset
    &&& a.selection == b.selection
    &&& a.parser == b.parser
}

/// Two states that agree on everything except the pen; the frame
/// condition of the SGR loop.
pub open spec fn eq_except_pen(a: TermModel, b: TermModel) -> bool {
    &&& a.rows == b.rows
    &&& a.cols == b.cols
    &&& a.screen == b.screen
    &&& a.scrollback == b.scrollback
    &&& a.limit == b.limit
    &&& a.cur_row == b.cur_row
    &&& a.cur_col == b.cur_col
    &&& a.pending_wrap == b.pending_wrap
    &&& a.cursor_visible == b.cursor_visible
    &&& a.bracketed_paste == b.bracketed_paste
    &&& a.app_cursor_keys == b.app_cursor_keys
    &&& a.title == b.title
    &&& a.display_offset == b.display_offset
    &&& a.selection == b.selection
    &&& a.parser == b.parser
}

/// With the cursor in range, its row-major index is inside the grid.
pub proof fn lemma_cursor_index_in_grid(rows: int, cols: int, r: int, c: int)
    requires
        0 <= r < rows,
        0 <= c < cols,
    ensures
        0 <= r * cols + c < rows * cols,
{
    assert(r * cols + c < rows * cols) by (nonlinear_arith)
        requires
            0 <= r < rows,
            0 <= c < cols,
    ;
}

/// The cell count of a well-formed grid fits comfortably in a `usize`.
pub proof fn lemma_grid_size_bound(rows: int, cols: int)
    requires
        1 <= rows <= 0xffff,
        1 <= cols <= 0xffff,
    ensures
        rows * cols <= 0xfffe0001,
{
    assert(rows * cols <= 0xffff * 0xffff) by (nonlinear_arith)
        requires
            1 <= rows <= 0xffff,
            1 <= cols <= 0xffff,
    ;
}

/// A well-formed grid has at least one row's worth of cells.
pub proof fn lemma_grid_at_least_one_row(rows: int, cols: int)
    requires
        1 <= rows,
        0 <= cols,
    ensures
        cols <= rows * cols,
{
    assert(cols <= rows * cols) by (nonlinear_arith)
        requires
            1 <= rows,
            0 <= cols,
    ;
}

pub proof fn lemma_wf_scrolled_up(m: TermModel)
    requires
        wf(m),
    ensures
        wf(spec_scrolled_up(m)),
        spec_scrolled_up(m).rows == m.rows,
        spec_scrolled_up(m).cols == m.cols,
{
    lemma_grid_at_least_one_row(m.rows, m.cols);
}

pub proof fn lemma_wf_linefeed(m: TermModel)
    requires
        wf(m),
    ensures
        wf(spec_linefeed(m)),
        spec_linefeed(m).rows == m.rows,
        spec_linefeed(m).cols == m.cols,
{
    lemma_wf_scrolled_up(m);
}

pub proof fn lemma_wf_wrap(m: TermModel)
    requires
        wf(m),
    ensures
        wf(spec_wrap(m)),
        spec_wrap(m).rows == m.rows,
        spec_wrap(m).cols == m.cols,
        spec_wrap(m).cur_col == 0,
{
    lemma_wf_linefeed(m);
}

pub proof fn lemma_wf_put_char(m: TermModel, ch: char)
    requires
        wf(m),
    ensures
        wf(spec_put_char(m, ch)),
        spec_put_char(m, ch).rows == m.rows,
        spec_put_char(m, ch).cols == m.cols,
{
    let m1 = if m.pending_wrap {
        spec_wrap(m)
    } else {
        m
    };
    lemma_wf_wrap(m);
    lemma_cursor_index_in_grid(m1.rows, m1.cols, m1.cur_row, m1.cur_col);
}

pub proof fn lemma_wf_put_wide(m: TermModel, ch: char)
    requires
        wf(m),
    ensures
        wf(spec_put_wide(m, ch)),
        spec_put_wide(m, ch).rows == m.rows,
        spec_put_wide(m, ch).cols == m.cols,
{
    if m.cols < 2 {
        lemma_wf_put_char(m, '\u{fffd}');
    } else {
        let m1 = if m.pending_wrap {
            spec_wrap(m)
        } else {
            m
        };
        lemma_wf_wrap(m);
        let m2 = if m1.cur_col + 1 >= m1.cols {
            spec_wrap(m1)
        } else {
            m1
        };
        lemma_wf_wrap(m1);
        lemma_cursor_index_in_grid(m2.rows, m2.cols, m2.cur_row, m2.cur_col);
        lemma_cursor_index_in_grid(m2.rows, m2.cols, m2.cur_row, m2.cur_col + 1);
    }
}

pub proof fn lemma_wf_print(m: TermModel, ch: char)
    requires
        wf(m),
    ensures
        wf(spec_print(m, ch)),
        spec_print(m, ch).rows == m.rows,
        spec_print(m, ch).cols == m.cols,
{
    if spec_is_wide_char(ch) {
        lemma_wf_put_wide(m, ch);
    } else {
        lemma_wf_put_char(m, ch);
    }
}

pub proof fn lemma_wf_set_modes(m: TermModel, params: Seq<u16>, on: bool)
    requires
        wf(m),
    ensures
        wf(spec_set_modes(m, params, on)),
        spec_set_modes(m, params, on).rows == m.rows,
        spec_set_modes(m, params, on).cols == m.cols,
    decreases params.len(),
{
    if params.len() > 0 {
        lemma_wf_set_modes(spec_apply_mode(m, params[0], on), params.skip(1), on);
    }
}

pub proof fn lemma_wf_csi_dispatch(m: TermModel, private: bool, params: Seq<u16>, fin: u8)
    requires
        wf(m),
    ensures
        wf(spec_csi_dispatch(m, private, params, fin)),
        spec_csi_dispatch(m, private, params, fin).rows == m.rows,
        spec_csi_dispatch(m, private, params, fin).cols == m.cols,
{
    lemma_cursor_index_in_grid(m.rows, m.cols, m.cur_row, m.cur_col);
    lemma_cursor_index_in_grid(m.rows, m.cols, m.cur_row, 0);
    assert(m.cur_row * m.cols + m.cols <= m.rows * m.cols) by (nonlinear_arith)
        requires
            0 <= m.cur_row < m.rows,
            0 < m.cols,
    ;
    if fin == 0x68 && private {
        lemma_wf_set_modes(m, params, true);
    }
    if fin == 0x6c && private {
        lemma_wf_set_modes(m, params, false);
    }
}

pub proof fn lemma_wf_step(m: TermModel, b: u8)
    requires
        wf(m),
    ensures
        wf(spec_step(m, b)),
        spec_step(m, b).rows == m.rows,
        spec_step(m, b).cols == m.cols,
{
    match m.parser {
        ParserModel::Ground => {
            if b == 0x0a {
                lemma_wf_linefeed(m);
            } else if 0x20 <= b <= 0x7e {
                lemma_wf_print(m, b as char);
            } else if b > 0x7f && !(0xc2 <= b <= 0xdf) && !(0xe0 <= b <= 0xef) && !(0xf0 <= b
                <= 0xf4) {
                lemma_wf_print(m, '\u{fffd}');
            }
        },
        ParserModel::Csi { private, params, current } => {
            if !(0x30 <= b <= 0x39) && b != 0x3b && b != 0x3f && b != 0x1b && 0x40 <= b <= 0x7e {
                let full = if params.len() < 16 {
                    params.push(current)
                } else {
                    params
                };
                let mg = TermModel { parser: ParserModel::Ground, ..m };
                lemma_wf_csi_dispatch(mg, private, full, b);
            }
        },
        ParserModel::Utf8 { remaining, acc, min } => {
            if 0x80 <= b <= 0xbf {
                if remaining == 1 {
                    let acc2 = (acc * 64 + (b - 0x80) as u32) as u32;
                    let mg = TermModel { parser: ParserModel::Ground, ..m };
                    if acc2 >= min && acc2 <= 0x10ffff && !(0xd800 <= acc2 <= 0xdfff) {
                        lemma_wf_print(mg, acc2 as char);
                    } else {
                        lemma_wf_print(mg, '\u{fffd}');
                    }
                }
            } else {
                lemma_wf_print(TermModel { parser: ParserModel::Ground, ..m }, '\u{fffd}');
            }
        },
        _ => {},
    }
}

pub proof fn lemma_wf_resize(m: TermModel, nr: u16, nc: u16)
    requires
        wf(m),
        nr >= 1,
        nc >= 1,
    ensures
        wf(spec_resize(m, nr, nc)),
{
}

/// Processing one more byte after a chunk is the same as processing the
/// chunk extended by that byte.
pub proof fn lemma_advance_snoc(m: TermModel, s: Seq<u8>, b: u8)
    ensures
        spec_advance(m, s.push(b)) == spec_step(spec_advance(m, s), b),
    decreases s.len(),
{
    if s.len() == 0 {
        assert(s.push(b)[0] == b);
        assert(s.push(b).skip(1) =~= Seq::<u8>::empty());
        assert(spec_advance(m, s.push(b)) == spec_advance(spec_step(m, b), s.push(b).skip(1)));
        assert(spec_advance(spec_step(m, b), Seq::<u8>::empty()) == spec_step(m, b));
        assert(spec_advance(m, s) == m);
    } else {
        let s2 = s.skip(1);
        assert(s.push(b)[0] == s[0]);
        assert(s.push(b).skip(1) =~= s2.push(b));
        lemma_advance_snoc(spec_step(m, s[0]), s2, b);
        assert(spec_advance(m, s.push(b)) == spec_advance(
            spec_step(m, s[0]),
            s.push(b).skip(1),
        ));
        assert(spec_advance(spec_step(m, s[0]), s2.push(b)) == spec_step(
            spec_advance(spec_step(m, s[0]), s2),
            b,
        ));
        assert(spec_advance(m, s) == spec_advance(spec_step(m, s[0]), s2));
    }
}

} // verus!
