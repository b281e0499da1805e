//! The command line: what is typed after `:` and what it means.

use vstd::prelude::*;
use crate::buffer::{Buffer, BufferView};
use crate::error::EditorError;
use crate::position::{Position, clamped};
use crate::strings::string_of;

verus! {

/// A command, as the command line was read.
#[derive(Clone, Debug, PartialEq, Eq)]
pub enum Command {
    /// `w`, with the path where one was given.
    Write(Option<String>),
    /// `q`.
    Quit,
    /// `wq`.
    WriteQuit,
    /// A line number.
    Goto(usize),
    /// Anything else.
    Unknown,
}

/// What a `Command` holds, as mathematics.
pub enum CommandView {
    Write(Option<Seq<char>>),
    Quit,
    WriteQuit,
    Goto(usize),
    Unknown,
}

impl View for Command {
    type V = CommandView;

    open spec fn view(&self) -> CommandView {
        match self {
            Command::Write(Some(path)) => CommandView::Write(Some(path@)),
            Command::Write(None) => CommandView::Write(None),
            Command::Quit => CommandView::Quit,
            Command::WriteQuit => CommandView::WriteQuit,
            Command::Goto(line) => CommandView::Goto(*line),
            Command::Unknown => CommandView::Unknown,
        }
    }
}

/// What became of a command.
#[derive(Clone, Debug, PartialEq, Eq)]
pub enum CommandResult {
    /// The cursor went to the line asked for.
    Moved,
    /// The buffer is to be written to this path.
    Write(String),
    /// The session is to end.
    Quit,
    /// The buffer is to be written to this path, and the session then to end.
    WriteQuit(String),
    /// The command was not carried out.
    Failed(EditorError),
}

/// What a `CommandResult` holds, as mathematics.
pub enum CommandResultView {
    Moved,
    Write(Seq<char>),
    Quit,
    WriteQuit(Seq<char>),
    Failed(EditorError),
}

impl View for CommandResult {
    type V = CommandResultView;

    open spec fn view(&self) -> CommandResultView {
        match self {
            CommandResult::Moved => CommandResultView::Moved,
            CommandResult::Write(path) => CommandResultView::Write(path@),
            CommandResult::Quit => CommandResultView::Quit,
            CommandResult::WriteQuit(path) => CommandResultView::WriteQuit(path@),
            CommandResult::Failed(error) => CommandResultView::Failed(*error),
        }
    }
}

/// Blanks separate the words of a command.
pub open spec fn is_blank(c: char) -> bool {
    c == ' ' || c == '\t'
}

/// The index of the first character at or after `i` that is not a blank; the
/// length of `s` where only blanks follow.
pub open spec fn skip_blanks(s: Seq<char>, i: int) -> int
    decreases s.len() - i,
{
    if 0 <= i < s.len() && is_blank(s[i]) {
        skip_blanks(s, i + 1)
    } else {
        i
    }
}

/// The index of the first blank at or after `i`; the length of `s` where no
/// blank follows.
pub open spec fn word_end(s: Seq<char>, i: int) -> int
    decreases s.len() - i,
{
    if 0 <= i < s.len() && !is_blank(s[i]) {
        word_end(s, i + 1)
    } else {
        i
    }
}

/// `c` is one of the ten decimal digits.
pub open spec fn is_digit(c: char) -> bool {
    '0' <= c <= '9'
}

/// Every character of `s` is a decimal digit.
pub open spec fn all_digits(s: Seq<char>) -> bool {
    forall|i: int| 0 <= i < s.len() ==> is_digit(#[trigger] s[i])
}

/// The number that the decimal digits `s` write.
pub open spec fn decimal_value(s: Seq<char>) -> nat
    decreases s.len(),
{
    if s.len() == 0 {
        0
    } else {
        decimal_value(s.drop_last()) * 10 + (s.last() as int - '0' as int) as nat
    }
}

/// The number that the decimal digits `s` write, or the largest line number
/// there can be where they write a larger one.
pub open spec fn line_number(s: Seq<char>) -> usize {
    if decimal_value(s) > usize::MAX {
        usize::MAX
    } else {
        decimal_value(s) as usize
    }
}

/// The meaning of a command line. Its words are separated by blanks: the first
/// is the name, the second the argument. `w` takes an optional path; `q`, `wq`
/// and a line number stand alone. Everything else is unknown: no word, a
/// third word, another name, an argument where none belongs.
pub open spec fn parsed(text: Seq<char>) -> CommandView {
    let name_start = skip_blanks(text, 0);
    let name_end = word_end(text, name_start);
    let arg_start = skip_blanks(text, name_end);
    let arg_end = word_end(text, arg_start);
    let name = text.subrange(name_start, name_end);
    let argument = text.subrange(arg_start, arg_end);
    if skip_blanks(text, arg_end) < text.len() {
        CommandView::Unknown
    } else if name == seq!['w'] {
        CommandView::Write(
            if argument.len() > 0 {
                Some(argument)
            } else {
                None
            },
        )
    } else if argument.len() > 0 {
        CommandView::Unknown
    } else if name == seq!['q'] {
        CommandView::Quit
    } else if name == seq!['w', 'q'] {
        CommandView::WriteQuit
    } else if name.len() > 0 && all_digits(name) {
        CommandView::Goto(line_number(name))
    } else {
        CommandView::Unknown
    }
}

/// The row that line number `line` names in a document of `count` lines:
/// lines are numbered from one, and a number before the first or after the
/// last line names the first or the last.
pub open spec fn row_of_line(line: usize, count: nat) -> usize {
    if line == 0 {
        0
    } else if line > count {
        (count - 1) as usize
    } else {
        (line - 1) as usize
    }
}

/// What a command does to the buffer, and what comes of it. Only a line
/// number touches the buffer: the cursor goes to that line and keeps its
/// column, or takes the line's length where the line is shorter. A write goes
/// to the path given, else to `path`, the path of the file that was loaded,
/// and fails where there is neither.
pub open spec fn dispatched(command: CommandView, buffer: BufferView, path: Option<Seq<char>>) -> (
    BufferView,
    CommandResultView,
) {
    match command {
        CommandView::Write(Some(target)) => (buffer, CommandResultView::Write(target)),
        CommandView::Write(None) => match path {
            Some(target) => (buffer, CommandResultView::Write(target)),
            None => (buffer, CommandResultView::Failed(EditorError::IoFailure)),
        },
        CommandView::Quit => (buffer, CommandResultView::Quit),
        CommandView::WriteQuit => match path {
            Some(target) => (buffer, CommandResultView::WriteQuit(target)),
            None => (buffer, CommandResultView::Failed(EditorError::IoFailure)),
        },
        CommandView::Goto(line) => (
            BufferView {
                lines: buffer.lines,
                cursor: clamped(
                    buffer.lines,
                    Position {
                        row: row_of_line(line, buffer.lines.len()),
                        column: buffer.cursor.column,
                    },
                ),
            },
            CommandResultView::Moved,
        ),
        CommandView::Unknown => (buffer, CommandResultView::Failed(EditorError::UnknownCommand)),
    }
}

/// What a path holds, where there is one.
pub open spec fn path_text(path: Option<String>) -> Option<Seq<char>> {
    match path {
        Some(text) => Some(text@),
        None => None,
    }
}

impl Command {
    /// Carries the command out on `buffer`. `path` is the path of the file
    /// that was loaded, where one was.
    pub fn run(self, buffer: &mut Buffer, path: &Option<String>) -> (result: CommandResult)
        requires
            old(buffer).wf(),
        ensures
            final(buffer).wf(),
            (final(buffer)@, result@) == dispatched(self@, old(buffer)@, path_text(*path)),
    {
        match self {
            Command::Write(Some(target)) => CommandResult::Write(target),
            Command::Write(None) => match path {
                Some(target) => CommandResult::Write(target.clone()),
                None => CommandResult::Failed(EditorError::IoFailure),
            },
            Command::Quit => CommandResult::Quit,
            Command::WriteQuit => match path {
                Some(target) => CommandResult::WriteQuit(target.clone()),
                None => CommandResult::Failed(EditorError::IoFailure),
            },
            Command::Goto(line) => {
                let count = buffer.line_count();
                let row = if line == 0 {
                    0
                } else if line > count {
                    count - 1
                } else {
                    line - 1
                };
                let target = buffer.clamp(Position { row, column: buffer.cursor().column });
                let _ = buffer.set_cursor(target);
                CommandResult::Moved
            },
            Command::Unknown => CommandResult::Failed(EditorError::UnknownCommand),
        }
    }
}

/// The characters typed on the command line and not yet confirmed.
#[derive(Clone, Debug, PartialEq, Eq)]
pub struct PendingCommand {
    text: Vec<char>,
}

impl View for PendingCommand {
    type V = Seq<char>;

    closed spec fn view(&self) -> Seq<char> {
        self.text@
    }
}

impl PendingCommand {
    /// An empty command line.
    pub fn new() -> (pending: PendingCommand)
        ensures
            pending@ == Seq::<char>::empty(),
    {
        PendingCommand { text: Vec::new() }
    }

    /// The number of characters typed so far.
    pub fn len(&self) -> (n: usize)
        ensures
            n == self@.len(),
    {
        self.text.len()
    }

    /// The characters typed so far.
    pub fn chars(&self) -> (text: &Vec<char>)
        ensures
            text@ == self@,
    {
        &self.text
    }

    /// Adds `c` at the end.
    pub fn push(&mut self, c: char)
        ensures
            final(self)@ == old(self)@.push(c),
    {
        self.text.push(c);
    }

    /// Takes the last character off; an empty command line stays empty.
    pub fn pop(&mut self)
        ensures
            final(self)@ == (if old(self)@.len() > 0 {
                old(self)@.drop_last()
            } else {
                old(self)@
            }),
    {
        let _ = self.text.pop();
    }

    /// Empties the command line.
    pub fn clear(&mut self)
        ensures
            final(self)@ == Seq::<char>::empty(),
    {
        self.text.clear();
    }

    /// The index of the first character at or after `from` that is not a
    /// blank.
    fn scan_blanks(&self, from: usize) -> (to: usize)
        requires
            from <= self@.len(),
        ensures
            to == skip_blanks(self@, from as int),
            from <= to <= self@.len(),
    {
        let mut i = from;
        while i < self.text.len() && (self.text[i] == ' ' || self.text[i] == '\t')
            invariant
                from <= i <= self@.len(),
                skip_blanks(self@, i as int) == skip_blanks(self@, from as int),
            decreases self@.len() - i,
        {
            i += 1;
        }
        i
    }

    /// The index of the first blank at or after `from`.
    fn scan_word(&self, from: usize) -> (to: usize)
        requires
            from <= self@.len(),
        ensures
            to == word_end(self@, from as int),
            from <= to <= self@.len(),
    {
        let mut i = from;
        while i < self.text.len() && !(self.text[i] == ' ' || self.text[i] == '\t')
            invariant
                from <= i <= self@.len(),
                word_end(self@, i as int) == word_end(self@, from as int),
            decreases self@.len() - i,
        {
            i += 1;
        }
        i
    }

    /// Reads `text[from..to]` as a line number; `None` unless it is one or
    /// more decimal digits.
    fn scan_number(&self, from: usize, to: usize) -> (line: Option<usize>)
        requires
            from <= to <= self@.len(),
        ensures
            line == (if from < to && all_digits(self@.subrange(from as int, to as int)) {
                Some(line_number(self@.subrange(from as int, to as int)))
            } else {
                None
            }),
    {
        if from == to {
            return None;
        }
        let mut value: usize = 0;
        let mut i = from;
        while i < to
            invariant
                from <= i <= to <= self@.len(),
                all_digits(self@.subrange(from as int, i as int)),
                value == line_number(self@.subrange(from as int, i as int)),
            decreases to - i,
        {
            let c = self.text[i];
            let ghost before = self@.subrange(from as int, i as int);
            let ghost after = self@.subrange(from as int, i + 1);
            assert(after.drop_last() =~= before);
            assert(after.last() == c);
            if !('0' <= c && c <= '9') {
                assert(self@.subrange(from as int, to as int)[i - from] == c);
                return None;
            }
            let digit: usize = (c as u32 - '0' as u32) as usize;
            value = match value.checked_mul(10) {
                Some(tens) => match tens.checked_add(digit) {
                    Some(sum) => sum,
                    None => usize::MAX,
                },
                None => usize::MAX,
            };
            assert(all_digits(after)) by {
                assert forall|k: int| 0 <= k < after.len() implies is_digit(
                    #[trigger] after[k],
                ) by {
                    if k < before.len() {
                        assert(after[k] == before[k]);
                    }
                }
            }
            i += 1;
        }
        assert(self@.subrange(from as int, i as int) == self@.subrange(from as int, to as int));
        Some(value)
    }

    /// Reads the command line.
    pub fn parse(&self) -> (command: Command)
        ensures
            command@ == parsed(self@),
    {
        let name_start = self.scan_blanks(0);
        let name_end = self.scan_word(name_start);
        let arg_start = self.scan_blanks(name_end);
        let arg_end = self.scan_word(arg_start);
        let rest = self.scan_blanks(arg_end);
        let ghost name = self@.subrange(name_start as int, name_end as int);
        if rest < self.text.len() {
            return Command::Unknown;
        }
        let has_argument = arg_start < arg_end;
        let name_len = name_end - name_start;
        if name_len == 1 && self.text[name_start] == 'w' {
            assert(name =~= seq!['w']);
            if has_argument {
                return Command::Write(Some(string_of(&self.text, arg_start, arg_end)));
            } else {
                return Command::Write(None);
            }
        }
        assert(name != seq!['w']) by {
            if name == seq!['w'] {
                assert(name.len() == 1);
                assert(name[0] == 'w');
            }
        }
        if has_argument {
            return Command::Unknown;
        }
        if name_len == 1 && self.text[name_start] == 'q' {
            assert(name =~= seq!['q']);
            return Command::Quit;
        }
        assert(name != seq!['q']) by {
            if name == seq!['q'] {
                assert(name.len() == 1);
                assert(name[0] == 'q');
            }
        }
        if name_len == 2 && self.text[name_start] == 'w' && self.text[name_start + 1] == 'q' {
            assert(name =~= seq!['w', 'q']);
            return Command::WriteQuit;
        }
        assert(name != seq!['w', 'q']) by {
            if name == seq!['w', 'q'] {
                assert(name.len() == 2);
                assert(name[0] == 'w');
                assert(name[1] == 'q');
            }
        }
        match self.scan_number(name_start, name_end) {
            Some(line) => Command::Goto(line),
            None => Command::Unknown,
        }
    }

    /// Reads the command line and carries the command out on `buffer`. `path`
    /// is the path of the file that was loaded, where one was.
    pub fn dispatch(&self, buffer: &mut Buffer, path: &Option<String>) -> (result: CommandResult)
        requires
            old(buffer).wf(),
        ensures
            final(buffer).wf(),
            (final(buffer)@, result@) == dispatched(parsed(self@), old(buffer)@, path_text(*path)),
    {
        self.parse().run(buffer, path)
    }
}

} // verus!
