//! The document and its cursor.

use vstd::prelude::*;
use crate::error::EditorError;
use crate::lines::{loaded, read_lines, text_of};
use crate::position::{Position, valid_text, in_bounds, clamped, lemma_clamped_in_bounds};
use crate::strings::push_chars;
use crate::terminal::{ScreenPosition, frame, frame_with, goto_sequence, painted};

verus! {

/// What a buffer holds, as mathematics: the lines in document order and the
/// cursor.
pub struct BufferView {
    pub lines: Seq<Seq<char>>,
    pub cursor: Position,
}

impl BufferView {
    /// The invariant of a buffer: at least one line, and the cursor on a line
    /// and no further right than just after its last character.
    pub open spec fn inv(self) -> bool {
        &&& self.lines.len() >= 1
        &&& in_bounds(self.lines, self.cursor)
    }

    /// A buffer as a machine holds it: the invariant, and sizes that fit.
    pub open spec fn wf(self) -> bool {
        &&& self.inv()
        &&& valid_text(self.lines)
    }

    /// The same cursor over other lines, pulled back into them where it
    /// would otherwise fall outside.
    pub open spec fn with_lines(self, lines: Seq<Seq<char>>) -> BufferView {
        BufferView { lines, cursor: clamped(lines, self.cursor) }
    }

    /// `(row, col)` is a place where a character can be inserted or a line
    /// split.
    pub open spec fn has_place(self, row: int, col: int) -> bool {
        &&& 0 <= row < self.lines.len()
        &&& 0 <= col <= self.lines[row].len()
    }

    /// Inserting `ch` at `(row, col)`: the rest of the line moves right.
    pub open spec fn insert_char(self, row: int, col: int, ch: char) -> Option<BufferView> {
        if self.has_place(row, col) {
            Some(self.with_lines(self.lines.update(row, self.lines[row].insert(col, ch))))
        } else {
            None
        }
    }

    /// Deleting at `(row, col)`: the character there, or, at the end of a line
    /// that has a successor, the line break.
    pub open spec fn delete_char(self, row: int, col: int) -> Option<BufferView> {
        if 0 <= row < self.lines.len() && 0 <= col < self.lines[row].len() {
            Some(self.with_lines(self.lines.update(row, self.lines[row].remove(col))))
        } else if 0 <= row && row + 1 < self.lines.len() && col == self.lines[row].len() {
            Some(
                self.with_lines(
                    self.lines.update(row, self.lines[row] + self.lines[row + 1]).remove(row + 1),
                ),
            )
        } else {
            None
        }
    }

    /// Splitting line `row` at `col`: what stood from `col` on becomes a new
    /// line right after `row`.
    pub open spec fn split_line(self, row: int, col: int) -> Option<BufferView> {
        if self.has_place(row, col) {
            Some(
                self.with_lines(
                    self.lines.update(row, self.lines[row].take(col)).insert(
                        row + 1,
                        self.lines[row].skip(col),
                    ),
                ),
            )
        } else {
            None
        }
    }

    /// Deleting line `row`; the only line of a document is emptied instead.
    pub open spec fn delete_line(self, row: int) -> Option<BufferView> {
        if 0 <= row < self.lines.len() {
            if self.lines.len() == 1 {
                Some(self.with_lines(seq![Seq::<char>::empty()]))
            } else {
                Some(self.with_lines(self.lines.remove(row)))
            }
        } else {
            None
        }
    }

    /// Moving the cursor to `p`.
    pub open spec fn set_cursor(self, p: Position) -> Option<BufferView> {
        if in_bounds(self.lines, p) {
            Some(BufferView { lines: self.lines, cursor: p })
        } else {
            None
        }
    }
}

/// Splitting a line and deleting at the place where it was split gives the
/// lines back as they were: the deletion joins the two halves again.
pub proof fn lemma_split_then_join(b: BufferView, row: int, col: int)
    requires
        b.has_place(row, col),
    ensures
        b.split_line(row, col) is Some,
        b.split_line(row, col)->0.delete_char(row, col) is Some,
        b.split_line(row, col)->0.delete_char(row, col)->0.lines == b.lines,
{
    let split = b.split_line(row, col)->0;
    assert(split.lines[row] =~= b.lines[row].take(col));
    assert(split.lines[row + 1] =~= b.lines[row].skip(col));
    let joined = split.delete_char(row, col)->0;
    assert(b.lines[row].take(col) + b.lines[row].skip(col) =~= b.lines[row]);
    assert(joined.lines =~= b.lines);
}

/// No operation of a buffer breaks its invariant: wherever an operation
/// applies, the document it gives has a line, and the cursor is on a line and
/// no further right than just after its last character.
pub proof fn lemma_operations_keep_invariant(
    b: BufferView,
    row: int,
    col: int,
    ch: char,
    p: Position,
)
    ensures
        b.insert_char(row, col, ch) matches Some(v) ==> v.inv(),
        b.delete_char(row, col) matches Some(v) ==> v.inv(),
        b.split_line(row, col) matches Some(v) ==> v.inv(),
        b.delete_line(row) matches Some(v) ==> v.inv(),
        b.set_cursor(p) matches Some(v) ==> v.inv(),
{
    if let Some(v) = b.insert_char(row, col, ch) {
        lemma_clamped_in_bounds(v.lines, b.cursor);
    }
    if let Some(v) = b.delete_char(row, col) {
        lemma_clamped_in_bounds(v.lines, b.cursor);
    }
    if let Some(v) = b.split_line(row, col) {
        lemma_clamped_in_bounds(v.lines, b.cursor);
    }
    if let Some(v) = b.delete_line(row) {
        lemma_clamped_in_bounds(v.lines, b.cursor);
    }
}

/// Whatever a vector of lines holds, its sizes fit the machine.
proof fn lemma_sizes_fit(lines: &Vec<Vec<char>>)
    ensures
        text_of(lines@).len() <= usize::MAX,
        forall|i: int|
            0 <= i < lines@.len() ==> (#[trigger] text_of(lines@)[i]).len() <= usize::MAX,
{
    vstd::std_specs::vec::axiom_spec_len(lines);
    assert forall|i: int| 0 <= i < lines@.len() implies (#[trigger] text_of(lines@)[i]).len()
        <= usize::MAX by {
        vstd::std_specs::vec::axiom_spec_len(&lines@[i]);
    }
}

/// The in-memory document: its lines and the cursor.
#[derive(Clone, Debug, PartialEq, Eq)]
pub struct Buffer {
    lines: Vec<Vec<char>>,
    cursor: Position,
}

impl View for Buffer {
    type V = BufferView;

    closed spec fn view(&self) -> BufferView {
        BufferView { lines: text_of(self.lines@), cursor: self.cursor }
    }
}

impl Buffer {
    /// The buffer satisfies its invariant.
    pub open spec fn wf(&self) -> bool {
        self@.wf()
    }

    /// An empty document: one empty line, the cursor at its start.
    pub fn empty() -> (buffer: Buffer)
        ensures
            buffer.wf(),
            buffer@.lines == seq![Seq::<char>::empty()],
            buffer@.cursor == (Position { row: 0, column: 0 }),
    {
        let mut lines: Vec<Vec<char>> = Vec::new();
        lines.push(Vec::new());
        let buffer = Buffer { lines, cursor: Position { row: 0, column: 0 } };
        assert(buffer@.lines =~= seq![Seq::<char>::empty()]);
        buffer
    }

    /// The document that the bytes of a file hold, the cursor at its start.
    /// A line ends at a line feed, with or without a carriage return before
    /// it. A line that is not valid UTF-8 is read as an empty line, and the
    /// lines around it as they are. There is always at least one line: no
    /// bytes give one empty line.
    pub fn load(text: &[u8]) -> (buffer: Buffer)
        ensures
            buffer.wf(),
            buffer@.lines == loaded(text@),
            buffer@.lines.len() >= 1,
            buffer@.cursor == (Position { row: 0, column: 0 }),
    {
        let lines = read_lines(text);
        proof {
            lemma_sizes_fit(&lines);
        }
        Buffer { lines, cursor: Position { row: 0, column: 0 } }
    }

    /// The buffer a session starts with: the document that `input` holds
    /// where there is a file, an empty document where there is none.
    pub fn new(input: Option<&[u8]>) -> (buffer: Buffer)
        ensures
            buffer.wf(),
            buffer@.lines == (match input {
                Some(text) => loaded(text@),
                None => seq![Seq::<char>::empty()],
            }),
            buffer@.cursor == (Position { row: 0, column: 0 }),
    {
        match input {
            Some(text) => Buffer::load(text),
            None => Buffer::empty(),
        }
    }

    /// A snapshot of line `row`, or `None` where there is no such line.
    pub fn render_line(&self, row: usize) -> (line: Option<String>)
        requires
            self.wf(),
        ensures
            match line {
                Some(text) => row < self@.lines.len() && text@ == self@.lines[row as int],
                None => row >= self@.lines.len(),
            },
    {
        if row < self.lines.len() {
            let mut text = String::new();
            push_chars(&mut text, &self.lines[row]);
            assert(Seq::<char>::empty() + self.lines@[row as int]@ =~= self@.lines[row as int]);
            Some(text)
        } else {
            None
        }
    }

    /// A snapshot of the lines, in document order. The buffer is not
    /// changed, and each call gives the same lines anew.
    pub fn render_lines(&self) -> (snapshot: Vec<String>)
        requires
            self.wf(),
        ensures
            snapshot@.len() == self@.lines.len(),
            forall|i: int|
                0 <= i < snapshot@.len() ==> (#[trigger] snapshot@[i])@ == self@.lines[i],
    {
        let mut snapshot: Vec<String> = Vec::new();
        let mut row: usize = 0;
        while row < self.lines.len()
            invariant
                self.wf(),
                row <= self.lines@.len(),
                snapshot@.len() == row,
                forall|i: int| 0 <= i < row ==> (#[trigger] snapshot@[i])@ == self@.lines[i],
            decreases self.lines@.len() - row,
        {
            match self.render_line(row) {
                Some(line) => snapshot.push(line),
                None => {},
            }
            row += 1;
        }
        snapshot
    }

    /// The text that redraws the buffer on a terminal: every line, each
    /// followed by a carriage return and a line feed, and then the escape
    /// sequence that puts the terminal's cursor at `cursor`. The terminal
    /// counts from one, so neither coordinate may be zero.
    pub fn draw_buffer(&self, cursor: ScreenPosition) -> (text: String)
        requires
            self.wf(),
            cursor.row >= 1,
            cursor.column >= 1,
        ensures
            text@ == frame(self@.lines, cursor),
    {
        proof {
            reveal_strlit("");
        }
        let text = self.draw_message("", cursor);
        assert(text@ =~= frame(self@.lines, cursor));
        text
    }

    /// The text that redraws the buffer and shows `message` on the line below
    /// it: every line, each followed by a carriage return and a line feed,
    /// then `message`, and then the escape sequence that puts the terminal's
    /// cursor at `cursor`. The terminal counts from one, so neither coordinate
    /// may be zero.
    pub fn draw_message(&self, message: &str, cursor: ScreenPosition) -> (text: String)
        requires
            self.wf(),
            cursor.row >= 1,
            cursor.column >= 1,
        ensures
            text@ == frame_with(self@.lines, message@, cursor),
    {
        let mut text = String::new();
        let mut row: usize = 0;
        while row < self.lines.len()
            invariant
                row <= self.lines@.len(),
                text@ == painted(self@.lines.take(row as int)),
            decreases self.lines@.len() - row,
        {
            let ghost before = text@;
            push_chars(&mut text, &self.lines[row]);
            text.push('\r');
            text.push('\n');
            proof {
                let upto = self@.lines.take(row + 1);
                assert(upto.drop_last() =~= self@.lines.take(row as int));
                assert(upto.last() == self@.lines[row as int]);
                assert(text@ =~= before + self@.lines[row as int] + seq!['\r', '\n']);
            }
            row += 1;
        }
        assert(self@.lines.take(row as int) =~= self@.lines);
        text.append(message);
        let sequence = goto_sequence(cursor.column, cursor.row);
        text.append(sequence.as_str());
        text
    }

    /// The number of lines, never zero.
    pub fn line_count(&self) -> (n: usize)
        requires
            self.wf(),
        ensures
            n == self@.lines.len(),
            n >= 1,
    {
        self.lines.len()
    }

    /// The length of line `row`, or `None` where there is no such line.
    pub fn line_len(&self, row: usize) -> (n: Option<usize>)
        requires
            self.wf(),
        ensures
            n == (if row < self@.lines.len() {
                Some(self@.lines[row as int].len() as usize)
            } else {
                None
            }),
    {
        if row < self.lines.len() {
            Some(self.lines[row].len())
        } else {
            None
        }
    }

    /// The position nearest to `p` that lies in the document.
    pub fn clamp(&self, p: Position) -> (q: Position)
        requires
            self.wf(),
        ensures
            q == clamped(self@.lines, p),
            in_bounds(self@.lines, q),
    {
        let row = if p.row < self.lines.len() {
            p.row
        } else {
            self.lines.len() - 1
        };
        let width = self.lines[row].len();
        Position {
            row,
            column: if p.column <= width {
                p.column
            } else {
                width
            },
        }
    }

    /// The length of line `row`.
    pub(crate) fn width(&self, row: usize) -> (n: usize)
        requires
            self.wf(),
            row < self@.lines.len(),
        ensures
            n == self@.lines[row as int].len(),
    {
        self.lines[row].len()
    }

    /// Where the cursor stands.
    pub fn cursor(&self) -> (p: Position)
        requires
            self.wf(),
        ensures
            p == self@.cursor,
            in_bounds(self@.lines, p),
    {
        self.cursor
    }

    /// Moves the cursor to `p`, or fails and leaves it where it was when `p`
    /// is not a place of the document.
    pub fn set_cursor(&mut self, p: Position) -> (r: Result<(), EditorError>)
        requires
            old(self).wf(),
        ensures
            final(self).wf(),
            match old(self)@.set_cursor(p) {
                Some(v) => r is Ok && final(self)@ == v,
                None => r == Err::<(), _>(EditorError::OutOfBounds) && final(self)@ == old(self)@,
            },
    {
        if p.row < self.lines.len() && p.column <= self.lines[p.row].len() {
            self.cursor = p;
            Ok(())
        } else {
            Err(EditorError::OutOfBounds)
        }
    }

    /// Pulls the cursor back into the document after the lines have changed.
    fn clamp_cursor(&mut self)
        requires
            valid_text(old(self)@.lines),
        ensures
            final(self)@ == old(self)@.with_lines(old(self)@.lines),
            final(self).wf(),
    {
        if self.cursor.row >= self.lines.len() {
            self.cursor.row = self.lines.len() - 1;
        }
        let width = self.lines[self.cursor.row].len();
        if self.cursor.column > width {
            self.cursor.column = width;
        }
    }

    /// Inserts `ch` at column `col` of line `row`. The cursor keeps its
    /// coordinates. Fails with `OutOfBounds`, changing nothing, unless `row`
    /// is a line and `col` at most its length.
    pub fn insert_char(&mut self, row: usize, col: usize, ch: char) -> (r: Result<(), EditorError>)
        requires
            old(self).wf(),
        ensures
            final(self).wf(),
            match old(self)@.insert_char(row as int, col as int, ch) {
                Some(v) => r is Ok && final(self)@ == v,
                None => r == Err::<(), _>(EditorError::OutOfBounds) && final(self)@ == old(self)@,
            },
    {
        if row >= self.lines.len() || col > self.lines[row].len() {
            return Err(EditorError::OutOfBounds);
        }
        self.lines[row].insert(col, ch);
        assert(self@.lines =~= old(self)@.lines.update(
            row as int,
            old(self)@.lines[row as int].insert(col as int, ch),
        ));
        proof {
            lemma_sizes_fit(&self.lines);
        }
        self.clamp_cursor();
        Ok(())
    }

    /// Removes the character at column `col` of line `row`; at the end of a
    /// line that has a successor, joins that successor onto the line instead.
    /// The cursor keeps its coordinates, pulled back into the document where
    /// the lines have shrunk under it. Fails with `OutOfBounds`, changing
    /// nothing, on any other `(row, col)`.
    pub fn delete_char(&mut self, row: usize, col: usize) -> (r: Result<(), EditorError>)
        requires
            old(self).wf(),
        ensures
            final(self).wf(),
            match old(self)@.delete_char(row as int, col as int) {
                Some(v) => r is Ok && final(self)@ == v,
                None => r == Err::<(), _>(EditorError::OutOfBounds) && final(self)@ == old(self)@,
            },
    {
        if row >= self.lines.len() {
            return Err(EditorError::OutOfBounds);
        }
        let width = self.lines[row].len();
        if col < width {
            self.lines[row].remove(col);
            assert(self@.lines =~= old(self)@.lines.update(
                row as int,
                old(self)@.lines[row as int].remove(col as int),
            ));
        } else if col == width && row + 1 < self.lines.len() {
            let mut next = self.lines.remove(row + 1);
            self.lines[row].append(&mut next);
            assert(self@.lines =~= old(self)@.lines.update(
                row as int,
                old(self)@.lines[row as int] + old(self)@.lines[row + 1],
            ).remove(row + 1));
        } else {
            return Err(EditorError::OutOfBounds);
        }
        proof {
            lemma_sizes_fit(&self.lines);
        }
        self.clamp_cursor();
        Ok(())
    }

    /// Splits line `row` at column `col`: the line keeps what stood before
    /// `col`, and the rest becomes a new line right after it. The cursor keeps
    /// its coordinates, pulled back into the document where its line has
    /// shrunk under it. Fails with `OutOfBounds`, changing nothing, unless
    /// `row` is a line and `col` at most its length.
    pub fn split_line(&mut self, row: usize, col: usize) -> (r: Result<(), EditorError>)
        requires
            old(self).wf(),
        ensures
            final(self).wf(),
            match old(self)@.split_line(row as int, col as int) {
                Some(v) => r is Ok && final(self)@ == v,
                None => r == Err::<(), _>(EditorError::OutOfBounds) && final(self)@ == old(self)@,
            },
    {
        if row >= self.lines.len() || col > self.lines[row].len() {
            return Err(EditorError::OutOfBounds);
        }
        let rest = self.lines[row].split_off(col);
        self.lines.insert(row + 1, rest);
        assert(self@.lines =~= old(self)@.lines.update(
            row as int,
            old(self)@.lines[row as int].take(col as int),
        ).insert(row + 1, old(self)@.lines[row as int].skip(col as int)));
        proof {
            lemma_sizes_fit(&self.lines);
        }
        self.clamp_cursor();
        Ok(())
    }

    /// Removes line `row`; the only line of a document is emptied instead, so
    /// that one line always remains. The cursor keeps its coordinates, pulled
    /// back into the document. Fails with `OutOfBounds`, changing nothing,
    /// when there is no line `row`.
    pub fn delete_line(&mut self, row: usize) -> (r: Result<(), EditorError>)
        requires
            old(self).wf(),
        ensures
            final(self).wf(),
            match old(self)@.delete_line(row as int) {
                Some(v) => r is Ok && final(self)@ == v,
                None => r == Err::<(), _>(EditorError::OutOfBounds) && final(self)@ == old(self)@,
            },
    {
        if row >= self.lines.len() {
            return Err(EditorError::OutOfBounds);
        }
        if self.lines.len() == 1 {
            self.lines[0].clear();
            assert(self@.lines =~= seq![Seq::<char>::empty()]);
        } else {
            self.lines.remove(row);
            assert(self@.lines =~= old(self)@.lines.remove(row as int));
        }
        proof {
            lemma_sizes_fit(&self.lines);
        }
        self.clamp_cursor();
        Ok(())
    }
}

} // verus!
