//! The session coordinator: the single owner of a terminal state that
//! serializes device output, host commands and shutdown into state
//! changes and a list of actions for the host to perform.
//!
//! The coordinator never performs I/O itself. The host runs the loop: it
//! reads bytes from the terminal device and receives commands, feeds both
//! in here, and carries out the returned [`Action`]s (write to the
//! device, resize it, close it, publish a snapshot to viewers).

use vstd::prelude::*;

use crate::encoder::{spec_encode_key, Key, Modifiers};
use crate::model::{spec_advance, spec_resize, wf, TermModel};
use crate::paste::{spec_normalize_newlines, spec_paste_close, spec_paste_open,
    spec_strip_escapes};
use crate::screen::{Scroll, TerminalState};
use crate::size::TerminalSize;
use crate::snapshot::{spec_snapshot, Snapshot};

verus! {

/// One unit of work for the coordinator, from the device reader or from
/// the host.
#[derive(Debug)]
pub enum TerminalInput {
    /// A chunk of device output to interpret. An empty chunk is a no-op
    /// (end of file is signalled separately, by
    /// [`Coordinator::handle_pty_eof`]).
    PtyData(Vec<u8>),
    /// Host keystrokes or paste data to forward to the device verbatim.
    /// The grid is never touched by local input: echo is device-driven.
    Write(Vec<u8>),
    /// Resize the grid and the device as one logical step.
    Resize(TerminalSize),
    /// Publish a snapshot without new bytes (first paint, forced refresh).
    Sync,
    /// Stop the session.
    Shutdown,
}

/// What the host must do after a step, in order.
#[derive(Debug)]
pub enum Action {
    /// Write these bytes to the terminal device.
    WritePty(Vec<u8>),
    /// Resize the terminal device.
    ResizePty(TerminalSize),
    /// Hand this snapshot to the viewers' slot.
    Publish(Snapshot),
    /// Close the terminal device; its reader will then see end of file.
    ClosePty,
}

/// The coordinator's lifecycle.
#[derive(Clone, Copy, Debug, PartialEq, Eq, Structural)]
pub enum Phase {
    /// Created; the host's loop is not yet polling.
    Starting,
    /// Accepting device output and commands.
    Running,
    /// Stopping: the device is being closed, commands are ignored.
    Draining,
    /// Fully stopped; every further input is a no-op.
    Closed,
}

/// The abstract state of a coordinator.
pub ghost struct CoordModel {
    pub phase: Phase,
    pub term: TermModel,
}

/// Well-formedness of a coordinator: its terminal is well-formed.
pub open spec fn wf_coord(c: CoordModel) -> bool {
    wf(c.term)
}

/// The state after interpreting a chunk of device output.
pub open spec fn spec_after_bytes(c: CoordModel, bytes: Seq<u8>) -> CoordModel {
    CoordModel { term: spec_advance(c.term, bytes), ..c }
}

/// The state after forwarding host input: the grid is untouched, but any
/// selection is cleared by new input.
pub open spec fn spec_after_write(c: CoordModel) -> CoordModel {
    CoordModel { term: TermModel { selection: None, ..c.term }, ..c }
}

/// The state after a resize command.
pub open spec fn spec_after_resize(c: CoordModel, rows: u16, cols: u16) -> CoordModel {
    CoordModel { term: spec_resize(c.term, rows, cols), ..c }
}

/// The state after a shutdown request or device end-of-file: draining.
pub open spec fn spec_after_stop(c: CoordModel) -> CoordModel {
    CoordModel { phase: Phase::Draining, ..c }
}

/// The state once the host has finished the drain: a draining coordinator
/// is closed, anything else is untouched.
pub open spec fn spec_after_drain_complete(c: CoordModel) -> CoordModel {
    if c.phase is Draining {
        CoordModel { phase: Phase::Closed, ..c }
    } else {
        c
    }
}

/// The coordinator: the lifecycle phase plus the exclusively owned
/// terminal state.
pub struct Coordinator {
    phase: Phase,
    term: TerminalState,
}

impl View for Coordinator {
    type V = CoordModel;

    closed spec fn view(&self) -> CoordModel {
        CoordModel { phase: self.phase, term: self.term@ }
    }
}

impl Coordinator {
    /// Create a coordinator owning a fresh `rows` by `cols` terminal; it
    /// starts in `Starting` and accepts work only after [`Self::start`].
    pub fn new(rows: u16, cols: u16) -> (r: Self)
        requires
            rows >= 1,
            cols >= 1,
        ensures
            r@.phase is Starting,
            r@.term == crate::model::spec_new_term(rows, cols),
            wf_coord(r@),
    {
        Coordinator { phase: Phase::Starting, term: TerminalState::new(rows, cols) }
    }

    /// Enter the running phase and publish the first snapshot, so viewers
    /// have a frame before any device output arrives.
    pub fn start(&mut self) -> (r: Vec<Action>)
        requires
            wf_coord(old(self)@),
            old(self)@.phase is Starting,
        ensures
            wf_coord(final(self)@),
            final(self)@.phase is Running,
            final(self)@.term == old(self)@.term,
            r@.len() == 1,
            r@[0] matches Action::Publish(s) && s@ == spec_snapshot(old(self)@.term),
    {
        self.phase = Phase::Running;
        let mut actions: Vec<Action> = Vec::new();
        actions.push(Action::Publish(self.term.snapshot()));
        actions
    }

    /// The current phase.
    pub fn phase(&self) -> (p: Phase)
        ensures
            p == self@.phase,
    {
        self.phase
    }

    /// The latest snapshot of the owned terminal.
    pub fn snapshot(&self) -> (s: Snapshot)
        requires
            wf_coord(self@),
        ensures
            s@ == spec_snapshot(self@.term),
    {
        self.term.snapshot()
    }

    /// Handle one unit of work. Outside the running phase every input is
    /// ignored: the state is unchanged and no action is returned, so a
    /// repeated `Shutdown` (or any late command) is harmless.
    pub fn handle_input(&mut self, input: TerminalInput) -> (r: Vec<Action>)
        requires
            wf_coord(old(self)@),
        ensures
            wf_coord(final(self)@),
            !(old(self)@.phase is Running) ==> final(self)@ == old(self)@ && r@.len() == 0,
            old(self)@.phase is Running ==> match input {
                TerminalInput::PtyData(data) => {
                    &&& final(self)@ == spec_after_bytes(old(self)@, data@)
                    &&& r@.len() == 1
                    &&& (r@[0] matches Action::Publish(s) && s@ == spec_snapshot(
                        final(self)@.term,
                    ))
                },
                TerminalInput::Write(data) => {
                    &&& final(self)@ == spec_after_write(old(self)@)
                    &&& r@.len() == 1
                    &&& (r@[0] matches Action::WritePty(d) && d@ == data@)
                },
                TerminalInput::Resize(size) => {
                    if !size.valid() {
                        final(self)@ == old(self)@ && r@.len() == 0
                    } else {
                        &&& final(self)@ == spec_after_resize(old(self)@, size.rows, size.cols)
                        &&& r@.len() == 2
                        &&& (r@[0] matches Action::ResizePty(sz) && sz == size)
                        &&& (r@[1] matches Action::Publish(s) && s@ == spec_snapshot(
                            final(self)@.term,
                        ))
                    }
                },
                TerminalInput::Sync => {
                    &&& final(self)@ == old(self)@
                    &&& r@.len() == 1
                    &&& (r@[0] matches Action::Publish(s) && s@ == spec_snapshot(
                        final(self)@.term,
                    ))
                },
                TerminalInput::Shutdown => {
                    &&& final(self)@ == spec_after_stop(old(self)@)
                    &&& r@.len() == 2
                    &&& (r@[0] is ClosePty)
                    &&& (r@[1] matches Action::Publish(s) && s@ == spec_snapshot(
                        final(self)@.term,
                    ))
                },
            },
    {
        let mut actions: Vec<Action> = Vec::new();
        match self.phase {
            Phase::Running => {},
            _ => {
                return actions;
            },
        }
        match input {
            TerminalInput::PtyData(data) => {
                self.term.advance(&data);
                actions.push(Action::Publish(self.term.snapshot()));
            },
            TerminalInput::Write(data) => {
                self.term.set_selection(None);
                actions.push(Action::WritePty(data));
            },
            TerminalInput::Resize(size) => {
                if size.rows == 0 || size.cols == 0 {
                    return actions;
                }
                let res = self.term.resize(size.rows, size.cols);
                proof {
                    assert(res is Ok);
                }
                actions.push(Action::ResizePty(size));
                actions.push(Action::Publish(self.term.snapshot()));
            },
            TerminalInput::Sync => {
                actions.push(Action::Publish(self.term.snapshot()));
            },
            TerminalInput::Shutdown => {
                self.phase = Phase::Draining;
                actions.push(Action::ClosePty);
                actions.push(Action::Publish(self.term.snapshot()));
            },
        }
        actions
    }

    /// The device reader saw end of file (a read of zero bytes): the
    /// child exited on its own. In the running phase this starts the
    /// drain — close the device and publish a final snapshot — without
    /// any explicit shutdown command; otherwise it is a no-op.
    pub fn handle_pty_eof(&mut self) -> (r: Vec<Action>)
        requires
            wf_coord(old(self)@),
        ensures
            wf_coord(final(self)@),
            !(old(self)@.phase is Running) ==> final(self)@ == old(self)@ && r@.len() == 0,
            old(self)@.phase is Running ==> {
                &&& final(self)@ == spec_after_stop(old(self)@)
                &&& r@.len() == 2
                &&& (r@[0] is ClosePty)
                &&& (r@[1] matches Action::Publish(s) && s@ == spec_snapshot(final(self)@.term))
            },
    {
        let mut actions: Vec<Action> = Vec::new();
        match self.phase {
            Phase::Running => {},
            _ => {
                return actions;
            },
        }
        self.phase = Phase::Draining;
        actions.push(Action::ClosePty);
        actions.push(Action::Publish(self.term.snapshot()));
        actions
    }

    /// The host has closed the device and joined the reader: the drain is
    /// complete. Idempotent; in any phase but `Draining` it is a no-op.
    pub fn finish_close(&mut self)
        requires
            wf_coord(old(self)@),
        ensures
            wf_coord(final(self)@),
            final(self)@ == spec_after_drain_complete(old(self)@),
    {
        match self.phase {
            Phase::Draining => {
                self.phase = Phase::Closed;
            },
            _ => {},
        }
    }

    /// Handle one scheduling tick on which both a pending resize and new
    /// device bytes are ready: the resize is applied first, so the bytes
    /// are never parsed against stale dimensions.
    pub fn handle_tick(&mut self, resize: Option<TerminalSize>, data: Vec<u8>) -> (r: Vec<Action>)
        requires
            wf_coord(old(self)@),
        ensures
            wf_coord(final(self)@),
            !(old(self)@.phase is Running) ==> final(self)@ == old(self)@ && r@.len() == 0,
            old(self)@.phase is Running ==> {
                let mid = match resize {
                    Some(sz) => if !sz.valid() {
                        old(self)@
                    } else {
                        spec_after_resize(old(self)@, sz.rows, sz.cols)
                    },
                    None => old(self)@,
                };
                &&& final(self)@ == spec_after_bytes(mid, data@)
                &&& (match resize {
                    Some(sz) => if sz.valid() {
                        &&& r@.len() == 3
                        &&& (r@[0] matches Action::ResizePty(rs) && rs == sz)
                        &&& (r@[1] matches Action::Publish(s) && s@ == spec_snapshot(mid.term))
                    } else {
                        r@.len() == 1
                    },
                    None => r@.len() == 1,
                })
                &&& (r@[r@.len() - 1] matches Action::Publish(s) && s@ == spec_snapshot(
                    final(self)@.term,
                ))
            },
    {
        let mut actions: Vec<Action> = Vec::new();
        match resize {
            Some(sz) => {
                let mut first = self.handle_input(TerminalInput::Resize(sz));
                actions.append(&mut first);
            },
            None => {},
        }
        let mut second = self.handle_input(TerminalInput::PtyData(data));
        actions.append(&mut second);
        actions
    }
}

impl Coordinator {
    /// Encode a keypress and forward it to the device. Local input never
    /// touches the grid.
    pub fn send_key(&mut self, key: &Key, modifiers: Modifiers) -> (r: Vec<Action>)
        requires
            wf_coord(old(self)@),
        ensures
            wf_coord(final(self)@),
            !(old(self)@.phase is Running) ==> final(self)@ == old(self)@ && r@.len() == 0,
            old(self)@.phase is Running ==> {
                &&& final(self)@ == spec_after_write(old(self)@)
                &&& r@.len() == 1
                &&& (r@[0] matches Action::WritePty(d) && d@ == spec_encode_key(
                    *key,
                    modifiers,
                ))
            },
    {
        let data = crate::encoder::encode_key(key, modifiers);
        self.handle_input(TerminalInput::Write(data))
    }

    /// Forward pasted text: wrapped in paste brackets and stripped of
    /// escape bytes when the terminal is in bracketed-paste mode, with
    /// line endings normalized to `\r` otherwise.
    pub fn paste(&mut self, text: &Vec<u8>) -> (r: Vec<Action>)
        requires
            wf_coord(old(self)@),
        ensures
            wf_coord(final(self)@),
            !(old(self)@.phase is Running) ==> final(self)@ == old(self)@ && r@.len() == 0,
            old(self)@.phase is Running ==> {
                &&& final(self)@ == spec_after_write(old(self)@)
                &&& r@.len() == 1
                &&& (r@[0] matches Action::WritePty(d) && d@ == (
                if old(self)@.term.bracketed_paste {
                    spec_paste_open() + spec_strip_escapes(text@) + spec_paste_close()
                } else {
                    spec_normalize_newlines(text@)
                }))
            },
    {
        let bracketed = self.term.bracketed_paste();
        let data = crate::paste::encode_paste(text, bracketed);
        self.handle_input(TerminalInput::Write(data))
    }

    /// Forward raw host input, snapping the view back to the live screen
    /// first, as typing always does.
    pub fn input(&mut self, data: Vec<u8>) -> (r: Vec<Action>)
        requires
            wf_coord(old(self)@),
        ensures
            wf_coord(final(self)@),
            !(old(self)@.phase is Running) ==> final(self)@ == old(self)@ && r@.len() == 0,
            old(self)@.phase is Running ==> {
                &&& final(self)@.phase == old(self)@.phase
                &&& final(self)@.term == (TermModel {
                    display_offset: 0,
                    selection: None,
                    ..old(self)@.term
                })
                &&& r@.len() == 1
                &&& (r@[0] matches Action::WritePty(d) && d@ == data@)
            },
    {
        match self.phase {
            Phase::Running => {},
            _ => {
                return Vec::new();
            },
        }
        self.term.scroll(Scroll::Bottom);
        self.handle_input(TerminalInput::Write(data))
    }

    /// Move the view into scrollback; the live grid is untouched.
    pub fn scroll(&mut self, s: Scroll) -> (r: Vec<Action>)
        requires
            wf_coord(old(self)@),
        ensures
            wf_coord(final(self)@),
            final(self)@.phase == old(self)@.phase,
            final(self)@.term == (TermModel {
                display_offset: crate::screen::spec_scroll_offset(old(self)@.term, s),
                ..old(self)@.term
            }),
            r@.len() == 1,
            r@[0] matches Action::Publish(snap) && snap@ == spec_snapshot(final(self)@.term),
    {
        self.term.scroll(s);
        let mut actions: Vec<Action> = Vec::new();
        actions.push(Action::Publish(self.term.snapshot()));
        actions
    }

    /// Whether the view is scrolled all the way into the oldest history.
    pub fn scrolled_to_top(&self) -> (r: bool)
        ensures
            r == (self@.term.display_offset == self@.term.scrollback.len()),
    {
        self.term.scrolled_to_top()
    }

    /// Whether the view shows the live screen.
    pub fn scrolled_to_bottom(&self) -> (r: bool)
        ensures
            r == (self@.term.display_offset == 0),
    {
        self.term.scrolled_to_bottom()
    }

    /// The terminal's title, as set by the title escape sequence.
    pub fn title(&self) -> (t: &Vec<char>)
        ensures
            t@ == self@.term.title,
    {
        self.term.title()
    }

    /// Replace the highlighted region.
    pub fn set_selection(&mut self, sel: Option<crate::selection::SelectionSpan>)
        requires
            wf_coord(old(self)@),
        ensures
            wf_coord(final(self)@),
            final(self)@.phase == old(self)@.phase,
            final(self)@.term == (TermModel { selection: sel, ..old(self)@.term }),
    {
        self.term.set_selection(sel);
    }
}

/// Shutdown-idempotence law: stopping is a projection — a second stop
/// (shutdown after shutdown, or after end of file) changes nothing, and a
/// stopped coordinator is no longer running, so `handle_input` ignores
/// every later command.
pub proof fn lemma_stop_idempotent(c: CoordModel)
    ensures
        spec_after_stop(spec_after_stop(c)) == spec_after_stop(c),
        !(spec_after_stop(c).phase is Running),
{
}

/// End-of-file progress law: a read of zero bytes drives a running
/// coordinator to `Draining`, and completing the drain reaches `Closed`,
/// without any explicit shutdown command and with the terminal state kept
/// for inspection.
pub proof fn lemma_eof_reaches_closed(c: CoordModel)
    requires
        c.phase is Running,
    ensures
        spec_after_stop(c).phase is Draining,
        spec_after_drain_complete(spec_after_stop(c)).phase is Closed,
        spec_after_drain_complete(spec_after_stop(c)).term == c.term,
{
}

} // verus!
