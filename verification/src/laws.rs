//! Engine-wide laws, each proved over the model that the executable code
//! is verified to track.

use vstd::prelude::*;

use crate::cell::{spec_blank_cell, spec_default_pen, spec_pen_cell, Cell};
use crate::model::{
    spec_advance, spec_new_term, spec_put_char, spec_resize, spec_step, wf, ParserModel,
    TermModel,
};
use crate::snapshot::spec_snapshot;

verus! {

/// A byte that prints as itself: printable ASCII, no control codes.
pub open spec fn spec_printable(b: u8) -> bool {
    0x20 <= b <= 0x7e
}

/// The state reached by writing the printable bytes `s` into a fresh
/// terminal: the first `s.len()` cells hold exactly those characters,
/// written with the default pen, the rest of the grid is blank, nothing
/// has scrolled, and the cursor stands after the last character (with the
/// wrap pending when a row was just filled).
pub open spec fn spec_written_state(rows: int, cols: int, s: Seq<u8>, m: TermModel) -> bool {
    &&& wf(m)
    &&& m.rows == rows
    &&& m.cols == cols
    &&& forall|i: int|
        0 <= i < s.len() ==> m.screen[i] == spec_pen_cell(spec_default_pen(), s[i] as char)
    &&& forall|i: int| s.len() <= i < m.screen.len() ==> m.screen[i] == spec_blank_cell()
    &&& m.scrollback == Seq::<Seq<Cell>>::empty()
    &&& m.pen == spec_default_pen()
    &&& m.parser is Ground
    &&& if s.len() == 0 {
        m.cur_row == 0 && m.cur_col == 0 && !m.pending_wrap
    } else if m.pending_wrap {
        m.cur_col == cols - 1 && (m.cur_row + 1) * cols == s.len()
    } else {
        m.cur_row * cols + m.cur_col == s.len() && 1 <= m.cur_col
    }
}

/// A fresh terminal is the written state of the empty byte sequence.
proof fn lemma_written_state_base(rows: u16, cols: u16)
    requires
        rows >= 1,
        cols >= 1,
    ensures
        spec_written_state(rows as int, cols as int, Seq::empty(), spec_new_term(rows, cols)),
{
}

/// Writing one more printable byte extends the written state by one cell.
proof fn lemma_written_state_step(rows: int, cols: int, s: Seq<u8>, m: TermModel, b: u8)
    requires
        spec_written_state(rows, cols, s, m),
        spec_printable(b),
        s.len() + 1 <= rows * cols,
    ensures
        spec_written_state(rows, cols, s.push(b), spec_step(m, b)),
{
    let ch = b as char;
    assert(!crate::model::spec_is_wide_char(ch));
    assert(spec_step(m, b) == spec_put_char(m, ch));
    crate::model::lemma_wf_put_char(m, ch);
    let k = s.len() as int;
    let m1 = if m.pending_wrap {
        crate::model::spec_wrap(m)
    } else {
        m
    };
    if m.pending_wrap {
        // The cursor row is not the last one, so the wrap does not scroll.
        assert((m.cur_row + 1) * cols == k);
        assert(k + 1 <= rows * cols);
        assert(m.cur_row + 1 < rows) by (nonlinear_arith)
            requires
                (m.cur_row + 1) * cols == k,
                k < rows * cols,
                cols >= 1,
                m.cur_row >= 0,
        ;
        assert(m1.screen == m.screen);
        assert(m1.cur_row == m.cur_row + 1 && m1.cur_col == 0);
        assert(m1.cur_row * cols == (m.cur_row + 1) * cols);
        assert(m1.cur_row * cols + m1.cur_col == k);
    } else if k == 0 {
        assert(m1 == m && m1.cur_row == 0 && m1.cur_col == 0);
        assert(m1.cur_row * cols + m1.cur_col == k) by (nonlinear_arith)
            requires
                m1.cur_row == 0,
                m1.cur_col == 0,
                k == 0,
        ;
    } else {
        assert(m1 == m);
    }
    // In every case the write lands at row-major index `k`.
    assert(m1.cur_row * cols + m1.cur_col == k);
    assert(m1.pen == spec_default_pen());
    let m2 = spec_put_char(m, ch);
    assert(m2.screen == m1.screen.update(k, spec_pen_cell(spec_default_pen(), ch)));
    assert forall|i: int| 0 <= i < s.push(b).len() implies m2.screen[i] == spec_pen_cell(
        spec_default_pen(),
        s.push(b)[i] as char,
    ) by {
        if i < k {
            assert(m2.screen[i] == m.screen[i]);
            assert(s.push(b)[i] == s[i]);
        } else {
            assert(i == k);
            assert(s.push(b)[i] == b);
        }
    }
    // The cursor stands after the new character.
    if m1.cur_col + 1 >= cols {
        assert(m2.pending_wrap && m2.cur_row == m1.cur_row && m2.cur_col == m1.cur_col);
        assert(m1.cur_col == cols - 1);
        assert((m1.cur_row + 1) * cols == m1.cur_row * cols + cols) by (nonlinear_arith);
        assert((m2.cur_row + 1) * cols == k + 1);
    } else {
        assert(m2.cur_row * cols + m2.cur_col == k + 1 && 1 <= m2.cur_col);
    }
}

/// Writing a printable suffix onto a written state yields the written
/// state of the concatenation.
proof fn lemma_written_state_advance(rows: int, cols: int, done: Seq<u8>, rest: Seq<u8>, m: TermModel)
    requires
        spec_written_state(rows, cols, done, m),
        forall|i: int| 0 <= i < rest.len() ==> spec_printable(#[trigger] rest[i]),
        done.len() + rest.len() <= rows * cols,
    ensures
        spec_written_state(rows, cols, done + rest, spec_advance(m, rest)),
    decreases rest.len(),
{
    if rest.len() == 0 {
        assert(done + rest =~= done);
    } else {
        let b = rest[0];
        lemma_written_state_step(rows, cols, done, m, b);
        lemma_written_state_advance(
            rows,
            cols,
            done.push(b),
            rest.skip(1),
            spec_step(m, b),
        );
        assert(done.push(b) + rest.skip(1) =~= done + rest);
    }
}

/// Round-trip law: writing any sequence of printable bytes (no control
/// codes) through a fresh state machine and reading the grid back in
/// row-major order yields exactly those characters, wrapped at `cols`.
pub proof fn lemma_printable_round_trip(rows: u16, cols: u16, s: Seq<u8>)
    requires
        rows >= 1,
        cols >= 1,
        s.len() <= rows * cols,
        forall|i: int| 0 <= i < s.len() ==> spec_printable(#[trigger] s[i]),
    ensures
        forall|i: int|
            0 <= i < s.len() ==> #[trigger] spec_advance(
                spec_new_term(rows, cols),
                s,
            ).screen[i].ch == s[i] as char,
{
    lemma_written_state_base(rows, cols);
    lemma_written_state_advance(
        rows as int,
        cols as int,
        Seq::empty(),
        s,
        spec_new_term(rows, cols),
    );
    assert(Seq::empty() + s =~= s);
}

/// Resize-consistency law: after any resize, the cursor reported by a
/// snapshot lies inside the new bounds, wherever it stood before.
pub proof fn lemma_resize_cursor_in_bounds(m: TermModel, rows: u16, cols: u16)
    requires
        wf(m),
        rows >= 1,
        cols >= 1,
    ensures
        0 <= spec_snapshot(spec_resize(m, rows, cols)).cursor_row < rows,
        0 <= spec_snapshot(spec_resize(m, rows, cols)).cursor_col < cols,
{
    crate::model::lemma_wf_resize(m, rows, cols);
}

} // verus!
