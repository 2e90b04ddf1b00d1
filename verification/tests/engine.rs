use term_engine::cell::Cell;
use term_engine::channel::{Observer, SnapshotSlot};
use term_engine::coordinator::{Action, Coordinator, Phase, TerminalInput};
use term_engine::errors::EngineError;
use term_engine::screen::{Scroll, TerminalState};
use term_engine::size::TerminalSize;
use term_engine::snapshot::Snapshot;

fn row_text(s: &Snapshot, row: usize) -> String {
    (0..s.cols).map(|c| s.cells[row * s.cols + c].ch).collect()
}

#[test]
fn test_hello_scenario() {
    let mut term = TerminalState::new(24, 80);
    term.advance(&b"hello\r\n".to_vec());
    let snap = term.snapshot();
    assert_eq!(snap.cursor_row, 1);
    assert_eq!(snap.cursor_col, 0);
    let text: String = (0..5).map(|c| snap.cells[c].ch).collect();
    assert_eq!(text, "hello");
}

#[test]
fn test_resize_then_long_line_wraps() {
    let mut coord = Coordinator::new(24, 80);
    coord.start();
    coord.handle_input(TerminalInput::Resize(TerminalSize::new(24, 10, 0, 0)));
    let actions = coord.handle_input(TerminalInput::PtyData(b"abcdefghijklmno".to_vec()));
    let snap = match actions.into_iter().last() {
        Some(Action::Publish(s)) => s,
        _ => panic!("expected a published snapshot"),
    };
    assert_eq!(snap.cols, 10);
    assert_eq!(row_text(&snap, 0), "abcdefghij");
    assert_eq!(&row_text(&snap, 1)[..5], "klmno");
    assert_eq!(snap.cursor_row, 1);
    assert_eq!(snap.cursor_col, 5);
}

#[test]
fn test_round_trip_row_major() {
    let mut term = TerminalState::new(3, 4);
    let bytes = b"0123456789".to_vec();
    term.advance(&bytes);
    let snap = term.snapshot();
    for (i, b) in bytes.iter().enumerate() {
        assert_eq!(snap.cells[i].ch, *b as char);
    }
    // the rest of the grid is blank
    for i in bytes.len()..12 {
        assert_eq!(snap.cells[i].ch, ' ');
    }
}

#[test]
fn test_filling_the_screen_exactly_does_not_scroll() {
    let mut term = TerminalState::new(2, 3);
    term.advance(&b"abcdef".to_vec());
    let snap = term.snapshot();
    assert_eq!(row_text(&snap, 0), "abc");
    assert_eq!(row_text(&snap, 1), "def");
    // deferred wrap: the cursor still stands on the last cell
    assert_eq!(snap.cursor_row, 1);
    assert_eq!(snap.cursor_col, 2);
    assert!(snap.scrolled_to_top && snap.scrolled_to_bottom);
}

#[test]
fn test_wrap_at_last_row_scrolls() {
    let mut term = TerminalState::new(2, 3);
    term.advance(&b"abcdefg".to_vec());
    let snap = term.snapshot();
    // "abc" moved into scrollback; the screen shows "def" and "g"
    assert_eq!(row_text(&snap, 0), "def");
    assert_eq!(row_text(&snap, 1), "g  ");
    assert!(!snap.scrolled_to_top);
    // scrolled all the way up, the history row is visible again
    term.scroll(Scroll::Top);
    let snap = term.snapshot();
    assert_eq!(row_text(&snap, 0), "abc");
    assert!(snap.scrolled_to_top);
    term.scroll(Scroll::Bottom);
    assert!(term.snapshot().scrolled_to_bottom);
}

#[test]
fn test_scrollback_ring_is_bounded() {
    let mut term = TerminalState::with_history_limit(1, 3, 2);
    // each linefeed on a one-row screen scrolls a line into history
    term.advance(&b"a\r\nb\r\nc\r\nd\r\n".to_vec());
    // only the two newest history lines survive: "c" and "d"
    term.scroll(Scroll::Top);
    let snap = term.snapshot();
    assert!(snap.scrolled_to_top);
    assert_eq!(snap.display_offset, 2);
    assert_eq!(row_text(&snap, 0), "c  ");
    term.scroll(Scroll::Delta(-1));
    assert_eq!(row_text(&term.snapshot(), 0), "d  ");
}

#[test]
fn test_resize_cursor_in_bounds() {
    let mut term = TerminalState::new(24, 80);
    // park the cursor far outside the target bounds
    term.advance(&b"\x1b[20;60H".to_vec());
    let before = term.snapshot();
    assert_eq!((before.cursor_row, before.cursor_col), (19, 59));
    term.resize(10, 40).unwrap();
    let snap = term.snapshot();
    assert!(snap.cursor_row < 10);
    assert!(snap.cursor_col < 40);
}

#[test]
fn test_resize_to_zero_rejected() {
    let mut term = TerminalState::new(4, 4);
    term.advance(&b"hi".to_vec());
    let before = term.snapshot();
    assert_eq!(term.resize(0, 10), Err(EngineError::InvalidDimensions));
    assert_eq!(term.resize(10, 0), Err(EngineError::InvalidDimensions));
    let after = term.snapshot();
    assert_eq!(before.cells, after.cells);
    assert_eq!(before.cursor_row, after.cursor_row);
    assert_eq!(before.cursor_col, after.cursor_col);
}

#[test]
fn test_zero_byte_advance_is_noop() {
    let mut term = TerminalState::new(5, 5);
    term.advance(&b"xy".to_vec());
    let before = term.snapshot();
    term.advance(&Vec::new());
    let after = term.snapshot();
    assert_eq!(before.cells, after.cells);
    assert_eq!(before.cursor_row, after.cursor_row);
    assert_eq!(before.cursor_col, after.cursor_col);
}

#[test]
fn test_utf8_two_byte_character() {
    let mut term = TerminalState::new(2, 10);
    term.advance(&vec![0xc3, 0xa9]); // é
    let snap = term.snapshot();
    assert_eq!(snap.cells[0].ch, '\u{e9}');
    assert_eq!(snap.cursor_col, 1);
}

#[test]
fn test_wide_character_takes_two_columns() {
    let mut term = TerminalState::new(2, 10);
    term.advance(&vec![0xe4, 0xbd, 0xa0]); // a CJK character
    let snap = term.snapshot();
    assert_eq!(snap.cells[0].ch, '\u{4f60}');
    assert!(snap.cells[1].wide_continuation);
    assert_eq!(snap.cursor_col, 2);
}

#[test]
fn test_invalid_utf8_gives_replacement() {
    let mut term = TerminalState::new(2, 10);
    term.advance(&vec![0xff, b'a']);
    let snap = term.snapshot();
    assert_eq!(snap.cells[0].ch, '\u{fffd}');
    assert_eq!(snap.cells[1].ch, 'a');
}

#[test]
fn test_osc_sets_title() {
    let mut term = TerminalState::new(2, 10);
    term.advance(&b"\x1b]0;shell\x07".to_vec());
    let expected: Vec<char> = "shell".chars().collect();
    assert_eq!(term.title(), &expected);
    let snap = term.snapshot();
    assert_eq!(snap.title, expected);
}

#[test]
fn test_sgr_colors_and_styles() {
    let mut term = TerminalState::new(2, 10);
    term.advance(&b"\x1b[31;1mA\x1b[0mB".to_vec());
    let snap = term.snapshot();
    let a: Cell = snap.cells[0];
    assert_eq!((a.fg.r, a.fg.g, a.fg.b), (255, 0, 0));
    assert!(a.bold);
    let b: Cell = snap.cells[1];
    assert_eq!((b.fg.r, b.fg.g, b.fg.b), (212, 212, 212));
    assert!(!b.bold);
}

#[test]
fn test_cursor_position_sequence() {
    let mut term = TerminalState::new(24, 80);
    term.advance(&b"\x1b[2;3H".to_vec());
    let snap = term.snapshot();
    assert_eq!((snap.cursor_row, snap.cursor_col), (1, 2));
}

#[test]
fn test_erase_display() {
    let mut term = TerminalState::new(2, 4);
    term.advance(&b"abcd\x1b[H\x1b[2J".to_vec());
    let snap = term.snapshot();
    assert_eq!(row_text(&snap, 0), "    ");
    assert_eq!(row_text(&snap, 1), "    ");
}

#[test]
fn test_bracketed_paste_mode_flag() {
    let mut term = TerminalState::new(2, 10);
    assert!(!term.snapshot().bracketed_paste);
    term.advance(&b"\x1b[?2004h".to_vec());
    assert!(term.snapshot().bracketed_paste);
    term.advance(&b"\x1b[?2004l".to_vec());
    assert!(!term.snapshot().bracketed_paste);
}

#[test]
fn test_coordinator_write_goes_to_pty_not_grid() {
    let mut coord = Coordinator::new(4, 10);
    coord.start();
    let actions = coord.handle_input(TerminalInput::Write(b"ls\r".to_vec()));
    assert_eq!(actions.len(), 1);
    match &actions[0] {
        Action::WritePty(d) => assert_eq!(d, &b"ls\r".to_vec()),
        _ => panic!("expected a device write"),
    }
    // the grid shows nothing until the device echoes it back
    let snap = coord.snapshot();
    assert_eq!(snap.cells[0].ch, ' ');
}

#[test]
fn test_eof_detection() {
    let mut coord = Coordinator::new(4, 10);
    coord.start();
    assert_eq!(coord.phase(), Phase::Running);
    let actions = coord.handle_pty_eof();
    assert_eq!(coord.phase(), Phase::Draining);
    assert_eq!(actions.len(), 2);
    assert!(matches!(actions[0], Action::ClosePty));
    assert!(matches!(actions[1], Action::Publish(_)));
    coord.finish_close();
    assert_eq!(coord.phase(), Phase::Closed);
}

#[test]
fn test_shutdown_idempotence() {
    let mut coord = Coordinator::new(4, 10);
    coord.start();
    let first = coord.handle_input(TerminalInput::Shutdown);
    assert_eq!(first.len(), 2);
    assert_eq!(coord.phase(), Phase::Draining);
    // a second shutdown does nothing and produces no actions
    let second = coord.handle_input(TerminalInput::Shutdown);
    assert!(second.is_empty());
    assert_eq!(coord.phase(), Phase::Draining);
    // completing the close twice is harmless too
    coord.finish_close();
    coord.finish_close();
    assert_eq!(coord.phase(), Phase::Closed);
    assert!(coord.handle_input(TerminalInput::Shutdown).is_empty());
}

#[test]
fn test_tick_applies_resize_before_bytes() {
    let mut coord = Coordinator::new(24, 80);
    coord.start();
    let actions = coord.handle_tick(
        Some(TerminalSize::new(24, 10, 0, 0)),
        b"abcdefghijkl".to_vec(),
    );
    // were the bytes parsed against the stale 80-column grid, nothing
    // would wrap
    let snap = match actions.into_iter().last() {
        Some(Action::Publish(s)) => s,
        _ => panic!("expected a published snapshot"),
    };
    assert_eq!(row_text(&snap, 0), "abcdefghij");
    assert_eq!(snap.cursor_row, 1);
}

#[test]
fn test_last_value_wins() {
    let mut term = TerminalState::new(2, 4);
    let mut slot = SnapshotSlot::new(term.snapshot());
    let mut obs = Observer::new();
    term.advance(&b"a".to_vec());
    let s1 = term.snapshot();
    term.advance(&b"b".to_vec());
    let s2 = term.snapshot();
    slot.publish(s1);
    slot.publish(s2);
    // the slow consumer reads only now: it sees s2, never s1
    let got = slot.poll(&mut obs).expect("a value must be pending");
    assert_eq!(got.cells[0].ch, 'a');
    assert_eq!(got.cells[1].ch, 'b');
    assert_eq!(got.cursor_col, 2);
    // and nothing more afterwards
    assert!(slot.poll(&mut obs).is_none());
    // latest() is non-blocking and always the newest value
    assert_eq!(slot.latest().cells[1].ch, 'b');
}

#[test]
fn test_paste_through_coordinator() {
    let mut coord = Coordinator::new(4, 20);
    coord.start();
    // without bracketed paste, line endings are normalized
    let actions = coord.paste(&b"a\r\nb\nc".to_vec());
    match &actions[0] {
        Action::WritePty(d) => assert_eq!(d, &b"a\rb\rc".to_vec()),
        _ => panic!("expected a device write"),
    }
    // with bracketed paste on, the payload is wrapped and escapes stripped
    coord.handle_input(TerminalInput::PtyData(b"\x1b[?2004h".to_vec()));
    let actions = coord.paste(&b"a\x1bb".to_vec());
    match &actions[0] {
        Action::WritePty(d) => assert_eq!(d, &b"\x1b[200~ab\x1b[201~".to_vec()),
        _ => panic!("expected a device write"),
    }
}

#[test]
fn test_input_snaps_view_to_bottom() {
    let mut coord = Coordinator::new(2, 3);
    coord.start();
    coord.handle_input(TerminalInput::PtyData(b"abcdefg".to_vec()));
    coord.scroll(Scroll::Top);
    assert!(coord.scrolled_to_top());
    coord.input(b"x".to_vec());
    assert!(coord.scrolled_to_bottom());
}

#[test]
fn test_sync_publishes_without_bytes() {
    let mut coord = Coordinator::new(4, 10);
    coord.start();
    let actions = coord.handle_input(TerminalInput::Sync);
    assert_eq!(actions.len(), 1);
    assert!(matches!(actions[0], Action::Publish(_)));
}
