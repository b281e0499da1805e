//! One editing session: the buffer, the mode and the command line, and what
//! each key does to them.

use vstd::prelude::*;
use crate::buffer::{Buffer, BufferView};
use crate::command::{
    CommandResult, CommandResultView, CommandView, PendingCommand, dispatched, parsed, path_text,
    row_of_line,
};
use crate::cursor::{lemma_moved_in_bounds, move_cursor, moved};
use crate::error::EditorError;
use crate::mode::{Effect, Key, Mode, Transition, transition, transition_of};
use crate::position::{Position, in_bounds, lemma_clamped_in_bounds};
use crate::terminal::{ScreenPosition, frame, frame_with, on_screen, screen_position};

verus! {

/// What the program around the session is to do after a key.
#[derive(Clone, Debug, PartialEq, Eq)]
pub enum Signal {
    /// Go on reading keys.
    Continue,
    /// End the session.
    Terminate,
    /// Write the buffer to `path`; end the session afterwards if `terminate`.
    Save { path: String, terminate: bool },
    /// Tell the user of this error, and go on.
    Report(EditorError),
}

/// What a `Signal` holds, as mathematics.
pub enum SignalView {
    Continue,
    Terminate,
    Save { path: Seq<char>, terminate: bool },
    Report(EditorError),
}

impl View for Signal {
    type V = SignalView;

    open spec fn view(&self) -> SignalView {
        match self {
            Signal::Continue => SignalView::Continue,
            Signal::Terminate => SignalView::Terminate,
            Signal::Save { path, terminate } => SignalView::Save {
                path: path@,
                terminate: *terminate,
            },
            Signal::Report(error) => SignalView::Report(*error),
        }
    }
}

/// What a key came to: the signal, and whether the screen is to be drawn
/// anew.
#[derive(Clone, Debug, PartialEq, Eq)]
pub struct Outcome {
    pub signal: Signal,
    /// Set exactly when the key changed the lines or the cursor.
    pub redraw: bool,
}

/// The signal by which the session passes on what became of a command.
pub open spec fn signal_of(result: CommandResultView) -> SignalView {
    match result {
        CommandResultView::Moved => SignalView::Continue,
        CommandResultView::Write(path) => SignalView::Save { path, terminate: false },
        CommandResultView::Quit => SignalView::Terminate,
        CommandResultView::WriteQuit(path) => SignalView::Save { path, terminate: true },
        CommandResultView::Failed(error) => SignalView::Report(error),
    }
}

/// The signal that follows a save: a failed save is reported and the session
/// goes on; after a save that went well the session ends if that was asked
/// for.
pub open spec fn saved_signal(terminate: bool, saved: bool) -> SignalView {
    if !saved {
        SignalView::Report(EditorError::IoFailure)
    } else if terminate {
        SignalView::Terminate
    } else {
        SignalView::Continue
    }
}

impl Signal {
    /// The signal for what became of a command.
    pub fn from_result(result: CommandResult) -> (signal: Signal)
        ensures
            signal@ == signal_of(result@),
    {
        match result {
            CommandResult::Moved => Signal::Continue,
            CommandResult::Write(path) => Signal::Save { path, terminate: false },
            CommandResult::Quit => Signal::Terminate,
            CommandResult::WriteQuit(path) => Signal::Save { path, terminate: true },
            CommandResult::Failed(error) => Signal::Report(error),
        }
    }

    /// The signal that follows the save that a `Save` asked for: `saved` says
    /// whether the file was written, `terminate` is that of the `Save`.
    pub fn after_save(terminate: bool, saved: bool) -> (signal: Signal)
        ensures
            signal@ == saved_signal(terminate, saved),
    {
        if !saved {
            Signal::Report(EditorError::IoFailure)
        } else if terminate {
            Signal::Terminate
        } else {
            Signal::Continue
        }
    }
}

/// What a session holds, as mathematics.
pub struct SessionView {
    pub buffer: BufferView,
    pub mode: Mode,
    /// The command line as typed so far.
    pub pending: Seq<char>,
    /// The path of the file that was loaded, where one was.
    pub path: Option<Seq<char>>,
}

impl SessionView {
    /// The invariant of a session: the buffer's own; the anchor of a visual
    /// mode is a place of the document; and the command line is empty outside
    /// command-line mode.
    pub open spec fn inv(self) -> bool {
        &&& self.buffer.inv()
        &&& self.mode.anchor_of() matches Some(anchor) ==> in_bounds(self.buffer.lines, anchor)
        &&& self.mode != Mode::CommandLine ==> self.pending.len() == 0
    }

    /// A session as a machine holds it: the invariant, and a buffer whose
    /// sizes fit.
    pub open spec fn wf(self) -> bool {
        &&& self.inv()
        &&& self.buffer.wf()
    }
}

/// The two ends of a selection: the anchor, where the visual mode was
/// entered, and the cursor.
#[derive(Clone, Copy, Debug, PartialEq, Eq, Structural)]
pub struct Selection {
    pub anchor: Position,
    pub cursor: Position,
}

/// The selection of a session: in a visual mode, what lies between the anchor
/// and the cursor; none in the other modes.
pub open spec fn selection_of(s: SessionView) -> Option<Selection> {
    match s.mode.anchor_of() {
        Some(anchor) => Some(Selection { anchor, cursor: s.buffer.cursor }),
        None => None,
    }
}

/// The buffer after `c` was typed at the cursor: `c` stands where the cursor
/// stood, and the cursor one column further.
pub open spec fn typed(buffer: BufferView, c: char) -> BufferView {
    let row = buffer.cursor.row as int;
    let col = buffer.cursor.column as int;
    BufferView {
        lines: buffer.lines.update(row, buffer.lines[row].insert(col, c)),
        cursor: Position { row: buffer.cursor.row, column: (col + 1) as usize },
    }
}

/// The buffer after the line was broken at the cursor: what stood from the
/// cursor on is a new line below, and the cursor at its start.
pub open spec fn broken(buffer: BufferView) -> BufferView {
    let row = buffer.cursor.row as int;
    let col = buffer.cursor.column as int;
    BufferView {
        lines: buffer.lines.update(row, buffer.lines[row].take(col)).insert(
            row + 1,
            buffer.lines[row].skip(col),
        ),
        cursor: Position { row: (row + 1) as usize, column: 0 },
    }
}

/// The buffer after what stood before the cursor was deleted. Within a line
/// that is a character, and the cursor goes one column back. At the start of
/// a line it is the line break: the line is joined onto the one above, and the
/// cursor stands where the two meet. At the start of the document nothing
/// changes.
pub open spec fn erased(buffer: BufferView) -> BufferView {
    let row = buffer.cursor.row as int;
    let col = buffer.cursor.column as int;
    if col > 0 {
        BufferView {
            lines: buffer.lines.update(row, buffer.lines[row].remove(col - 1)),
            cursor: Position { row: buffer.cursor.row, column: (col - 1) as usize },
        }
    } else if row > 0 {
        BufferView {
            lines: buffer.lines.update(row - 1, buffer.lines[row - 1] + buffer.lines[row]).remove(
                row,
            ),
            cursor: Position {
                row: (row - 1) as usize,
                column: buffer.lines[row - 1].len() as usize,
            },
        }
    } else {
        buffer
    }
}

/// The session after a transition was taken, and the signal it gives.
pub open spec fn applied(s: SessionView, t: Transition) -> (SessionView, SignalView) {
    match t.effect {
        Effect::Nothing => (
            SessionView { buffer: s.buffer, mode: t.next, pending: s.pending, path: s.path },
            SignalView::Continue,
        ),
        Effect::Move(direction) => (
            SessionView {
                buffer: BufferView {
                    lines: s.buffer.lines,
                    cursor: moved(s.buffer.lines, s.buffer.cursor, direction),
                },
                mode: t.next,
                pending: s.pending,
                path: s.path,
            },
            SignalView::Continue,
        ),
        Effect::InsertChar(c) => (
            SessionView {
                buffer: typed(s.buffer, c),
                mode: t.next,
                pending: s.pending,
                path: s.path,
            },
            SignalView::Continue,
        ),
        Effect::BreakLine => (
            SessionView {
                buffer: broken(s.buffer),
                mode: t.next,
                pending: s.pending,
                path: s.path,
            },
            SignalView::Continue,
        ),
        Effect::EraseBack => (
            SessionView {
                buffer: erased(s.buffer),
                mode: t.next,
                pending: s.pending,
                path: s.path,
            },
            SignalView::Continue,
        ),
        Effect::ClearCommand => (
            SessionView { buffer: s.buffer, mode: t.next, pending: Seq::empty(), path: s.path },
            SignalView::Continue,
        ),
        Effect::PushCommand(c) => (
            SessionView {
                buffer: s.buffer,
                mode: t.next,
                pending: s.pending.push(c),
                path: s.path,
            },
            SignalView::Continue,
        ),
        Effect::PopCommand => (
            SessionView {
                buffer: s.buffer,
                mode: t.next,
                pending: if s.pending.len() > 0 {
                    s.pending.drop_last()
                } else {
                    s.pending
                },
                path: s.path,
            },
            SignalView::Continue,
        ),
        Effect::SubmitCommand => {
            let (buffer, result) = dispatched(parsed(s.pending), s.buffer, s.path);
            (
                SessionView { buffer, mode: t.next, pending: Seq::empty(), path: s.path },
                signal_of(result),
            )
        },
        Effect::Terminate => (
            SessionView { buffer: s.buffer, mode: t.next, pending: s.pending, path: s.path },
            SignalView::Terminate,
        ),
    }
}

/// The session after `key`, and the signal it gives: the entry of the
/// transition table for the session's mode and the key, applied.
pub open spec fn stepped(s: SessionView, key: Key) -> (SessionView, SignalView) {
    applied(s, transition_of(s.mode, key, s.buffer.cursor))
}

/// Escape leads to normal mode from every mode, and leaves the lines and the
/// cursor as they are.
pub proof fn lemma_escape_returns_to_normal(s: SessionView)
    ensures
        stepped(s, Key::Escape).0.mode == Mode::Normal,
        stepped(s, Key::Escape).0.buffer == s.buffer,
        stepped(s, Key::Escape).0.path == s.path,
        stepped(s, Key::Escape).1 == SignalView::Continue,
{
}

/// Entering a visual mode or the command line and leaving it at once with
/// Escape changes nothing: the session is as it was before the two keys, in
/// normal mode, with the same lines and the same cursor.
pub proof fn lemma_enter_then_escape(s: SessionView, key: Key)
    requires
        s.inv(),
        stepped(s, key).0.mode != s.mode,
        stepped(s, key).0.mode.anchor_of() is Some || stepped(s, key).0.mode == Mode::CommandLine,
    ensures
        stepped(stepped(s, key).0, Key::Escape).0.buffer == s.buffer,
        stepped(stepped(s, key).0, Key::Escape).0.mode == Mode::Normal,
        stepped(stepped(s, key).0, Key::Escape).0 == s,
        stepped(s, key).1 == SignalView::Continue,
        stepped(stepped(s, key).0, Key::Escape).1 == SignalView::Continue,
{
    let entered = stepped(s, key).0;
    let left = stepped(entered, Key::Escape).0;
    assert(s.pending =~= Seq::empty());
    assert(left.pending =~= s.pending);
}

/// Breaking a line and deleting the break again gives the buffer back as it
/// was, lines and cursor.
pub proof fn lemma_break_then_erase(b: BufferView)
    requires
        b.wf(),
    ensures
        erased(broken(b)) == b,
{
    let row = b.cursor.row as int;
    let col = b.cursor.column as int;
    let split = broken(b);
    assert(split.lines[row] =~= b.lines[row].take(col));
    assert(split.lines[row + 1] =~= b.lines[row].skip(col));
    assert(b.lines[row].take(col) + b.lines[row].skip(col) =~= b.lines[row]);
    assert(erased(split).lines =~= b.lines);
}

/// An unknown command is reported and changes nothing but the mode and the
/// command line: Enter on a command line that holds no known command leaves
/// the buffer as it is and leads to normal mode.
pub proof fn lemma_unknown_command(s: SessionView)
    requires
        s.mode == Mode::CommandLine,
        parsed(s.pending) == CommandView::Unknown,
    ensures
        stepped(s, Key::Enter).0.buffer == s.buffer,
        stepped(s, Key::Enter).0.mode == Mode::Normal,
        stepped(s, Key::Enter).1 == SignalView::Report(EditorError::UnknownCommand),
{
}

/// No key breaks the invariant of a session, whatever the mode and whatever
/// the key: the buffer keeps a line and the cursor stays on one, the anchor
/// of a visual mode stays a place of the document, and the command line is
/// empty outside command-line mode.
pub proof fn lemma_step_keeps_invariant(s: SessionView, key: Key)
    requires
        s.inv(),
    ensures
        stepped(s, key).0.inv(),
{
    let t = transition_of(s.mode, key, s.buffer.cursor);
    match t.effect {
        Effect::Move(direction) => {
            lemma_moved_in_bounds(s.buffer.lines, s.buffer.cursor, direction);
        },
        Effect::SubmitCommand => {
            if let CommandView::Goto(line) = parsed(s.pending) {
                lemma_clamped_in_bounds(
                    s.buffer.lines,
                    Position {
                        row: row_of_line(line, s.buffer.lines.len()),
                        column: s.buffer.cursor.column,
                    },
                );
            }
        },
        _ => {},
    }
}

/// The session after a sequence of keys, the first of them taken first.
pub open spec fn stepped_along(s: SessionView, keys: Seq<Key>) -> SessionView
    decreases keys.len(),
{
    if keys.len() == 0 {
        s
    } else {
        stepped(stepped_along(s, keys.drop_last()), keys.last()).0
    }
}

/// From a session that satisfies its invariant, no sequence of keys leads to
/// one that does not.
pub proof fn lemma_keys_keep_invariant(s: SessionView, keys: Seq<Key>)
    requires
        s.inv(),
    ensures
        stepped_along(s, keys).inv(),
    decreases keys.len(),
{
    if keys.len() > 0 {
        lemma_keys_keep_invariant(s, keys.drop_last());
        lemma_step_keeps_invariant(stepped_along(s, keys.drop_last()), keys.last());
    }
}

/// One running editor: a buffer, the mode, the command line being typed, and
/// the path of the file that was loaded.
#[derive(Clone, Debug, PartialEq, Eq)]
pub struct EditorSession {
    buffer: Buffer,
    mode: Mode,
    pending: PendingCommand,
    path: Option<String>,
}

impl View for EditorSession {
    type V = SessionView;

    closed spec fn view(&self) -> SessionView {
        SessionView {
            buffer: self.buffer@,
            mode: self.mode,
            pending: self.pending@,
            path: path_text(self.path),
        }
    }
}

impl EditorSession {
    /// The session satisfies its invariant.
    pub open spec fn wf(&self) -> bool {
        self@.wf()
    }

    /// A session on `buffer` in normal mode, with an empty command line.
    /// `path` is where the buffer was loaded from, if it was loaded.
    pub fn new(buffer: Buffer, path: Option<String>) -> (session: EditorSession)
        requires
            buffer.wf(),
        ensures
            session.wf(),
            session@ == (SessionView {
                buffer: buffer@,
                mode: Mode::Normal,
                pending: Seq::empty(),
                path: path_text(path),
            }),
    {
        EditorSession { buffer, mode: Mode::Normal, pending: PendingCommand::new(), path }
    }

    /// The buffer of the session.
    pub fn buffer(&self) -> (buffer: &Buffer)
        ensures
            buffer@ == self@.buffer,
    {
        &self.buffer
    }

    /// The mode the session is in.
    pub fn mode(&self) -> (mode: Mode)
        ensures
            mode == self@.mode,
    {
        self.mode
    }

    /// The command line as typed so far.
    pub fn pending(&self) -> (pending: &PendingCommand)
        ensures
            pending@ == self@.pending,
    {
        &self.pending
    }

    /// The path of the file that was loaded, where one was.
    pub fn path(&self) -> (path: &Option<String>)
        ensures
            path_text(*path) == self@.path,
    {
        &self.path
    }

    /// The selection: in a visual mode its two ends, the anchor and the
    /// cursor, both places of the document; `None` in the other modes.
    pub fn selection(&self) -> (selection: Option<Selection>)
        requires
            self.wf(),
        ensures
            selection == selection_of(self@),
            selection matches Some(ends) ==> in_bounds(self@.buffer.lines, ends.anchor)
                && in_bounds(self@.buffer.lines, ends.cursor),
    {
        match self.mode.anchor() {
            Some(anchor) => Some(Selection { anchor, cursor: self.buffer.cursor() }),
            None => None,
        }
    }

    /// Where the terminal is to show the cursor. The buffer counts rows and
    /// columns from zero and the terminal from one; the session converts.
    pub fn terminal_cursor(&self) -> (cursor: ScreenPosition)
        requires
            self.wf(),
        ensures
            cursor == on_screen(self@.buffer.cursor),
            cursor.row >= 1,
            cursor.column >= 1,
    {
        screen_position(self.buffer.cursor())
    }

    /// The text that redraws the session on a terminal: the lines of the
    /// buffer, and the cursor where `terminal_cursor` puts it.
    pub fn draw(&self) -> (text: String)
        requires
            self.wf(),
        ensures
            text@ == frame(self@.buffer.lines, on_screen(self@.buffer.cursor)),
    {
        self.buffer.draw_buffer(self.terminal_cursor())
    }

    /// The text that redraws the session and shows the message of `error` on
    /// the line below the buffer.
    pub fn draw_report(&self, error: EditorError) -> (text: String)
        requires
            self.wf(),
        ensures
            text@ == frame_with(
                self@.buffer.lines,
                error.message_text(),
                on_screen(self@.buffer.cursor),
            ),
    {
        self.buffer.draw_message(error.message(), self.terminal_cursor())
    }

    /// Types `c` at the cursor.
    fn type_char(&mut self, c: char)
        requires
            old(self).buffer.wf(),
        ensures
            final(self).buffer.wf(),
            final(self).buffer@ == typed(old(self).buffer@, c),
            final(self).mode == old(self).mode,
            final(self).pending == old(self).pending,
            final(self).path == old(self).path,
    {
        let at = self.buffer.cursor();
        let _ = self.buffer.insert_char(at.row, at.column, c);
        let _ = self.buffer.set_cursor(Position { row: at.row, column: at.column + 1 });
    }

    /// Breaks the line at the cursor.
    fn break_line(&mut self)
        requires
            old(self).buffer.wf(),
        ensures
            final(self).buffer.wf(),
            final(self).buffer@ == broken(old(self).buffer@),
            final(self).mode == old(self).mode,
            final(self).pending == old(self).pending,
            final(self).path == old(self).path,
    {
        let at = self.buffer.cursor();
        let _ = self.buffer.split_line(at.row, at.column);
        let _ = self.buffer.line_count();
        let _ = self.buffer.set_cursor(Position { row: at.row + 1, column: 0 });
    }

    /// Deletes what stands before the cursor.
    fn erase_back(&mut self)
        requires
            old(self).buffer.wf(),
        ensures
            final(self).buffer.wf(),
            final(self).buffer@ == erased(old(self).buffer@),
            final(self).mode == old(self).mode,
            final(self).pending == old(self).pending,
            final(self).path == old(self).path,
    {
        let at = self.buffer.cursor();
        if at.column > 0 {
            let _ = self.buffer.delete_char(at.row, at.column - 1);
            let _ = self.buffer.set_cursor(Position { row: at.row, column: at.column - 1 });
        } else if at.row > 0 {
            let above = self.buffer.width(at.row - 1);
            let _ = self.buffer.delete_char(at.row - 1, above);
            let _ = self.buffer.set_cursor(Position { row: at.row - 1, column: above });
        }
    }

    /// Takes one key: looks up the transition table for the mode the session
    /// is in, applies the effect to the buffer or to the command line, and
    /// changes mode. The signal says what the program around the session is to
    /// do next; `redraw` is set exactly when the lines or the cursor have
    /// changed.
    pub fn handle_key(&mut self, key: Key) -> (outcome: Outcome)
        requires
            old(self).wf(),
        ensures
            final(self).wf(),
            (final(self)@, outcome.signal@) == stepped(old(self)@, key),
            outcome.redraw == (final(self)@.buffer != old(self)@.buffer),
    {
        let before = self.buffer.cursor();
        let t = transition(self.mode, key, before);
        let mut edited = false;
        let signal = match t.effect {
            Effect::Nothing => Signal::Continue,
            Effect::Move(direction) => {
                let next = move_cursor(before, direction, &self.buffer);
                let _ = self.buffer.set_cursor(next);
                Signal::Continue
            },
            Effect::InsertChar(c) => {
                self.type_char(c);
                edited = true;
                assert(self.buffer@.lines[before.row as int].len() != old(
                    self,
                ).buffer@.lines[before.row as int].len());
                Signal::Continue
            },
            Effect::BreakLine => {
                self.break_line();
                edited = true;
                assert(self.buffer@.lines.len() != old(self).buffer@.lines.len());
                Signal::Continue
            },
            Effect::EraseBack => {
                self.erase_back();
                edited = before.column > 0 || before.row > 0;
                proof {
                    if before.column > 0 {
                        assert(self.buffer@.lines[before.row as int].len() != old(
                            self,
                        ).buffer@.lines[before.row as int].len());
                    } else if before.row > 0 {
                        assert(self.buffer@.lines.len() != old(self).buffer@.lines.len());
                    }
                }
                Signal::Continue
            },
            Effect::ClearCommand => {
                self.pending.clear();
                Signal::Continue
            },
            Effect::PushCommand(c) => {
                self.pending.push(c);
                Signal::Continue
            },
            Effect::PopCommand => {
                self.pending.pop();
                Signal::Continue
            },
            Effect::SubmitCommand => {
                let result = self.pending.dispatch(&mut self.buffer, &self.path);
                self.pending.clear();
                Signal::from_result(result)
            },
            Effect::Terminate => Signal::Terminate,
        };
        self.mode = t.next;
        let after = self.buffer.cursor();
        let redraw = edited || after.row != before.row || after.column != before.column;
        proof {
            if !edited && after == before {
                assert(self.buffer@.lines =~= old(self).buffer@.lines);
            }
        }
        Outcome { signal, redraw }
    }
}

} // verus!
