//! What is sent to the terminal: the text of a redraw, and the escape
//! sequence that places the cursor.

use vstd::prelude::*;
use crate::command::{all_digits, decimal_value, is_digit};
use crate::position::Position;

verus! {

/// A place on the screen. The terminal counts rows and columns from one.
#[derive(Clone, Copy, Debug, PartialEq, Eq, Structural)]
pub struct ScreenPosition {
    pub row: u16,
    pub column: u16,
}

/// The character for the digit `d`.
pub open spec fn digit_char(d: nat) -> char {
    (48 + d) as u8 as char
}

/// `n` written in decimal digits, without leading zeros.
pub open spec fn decimal_text(n: nat) -> Seq<char>
    decreases n,
{
    if n < 10 {
        seq![digit_char(n)]
    } else {
        decimal_text(n / 10).push(digit_char(n % 10))
    }
}

/// A number written in decimal reads back as itself.
pub proof fn lemma_decimal_text_reads_back(n: nat)
    ensures
        decimal_text(n).len() >= 1,
        all_digits(decimal_text(n)),
        decimal_value(decimal_text(n)) == n,
    decreases n,
{
    let text = decimal_text(n);
    if n < 10 {
        assert(is_digit(digit_char(n)));
        assert(text.drop_last() =~= Seq::<char>::empty());
        assert(decimal_value(text.drop_last()) == 0);
    } else {
        lemma_decimal_text_reads_back(n / 10);
        let front = decimal_text(n / 10);
        assert(is_digit(digit_char(n % 10)));
        assert(text.drop_last() =~= front);
        assert forall|i: int| 0 <= i < text.len() implies is_digit(#[trigger] text[i]) by {
            if i < front.len() {
                assert(text[i] == front[i]);
            }
        }
    }
}

/// The escape sequence that places the cursor: escape, `[`, the row, `;`, the
/// column, `H`.
pub open spec fn goto_text(column: u16, row: u16) -> Seq<char> {
    seq!['\u{1b}', '['] + decimal_text(row as nat) + seq![';'] + decimal_text(column as nat)
        + seq!['H']
}

/// The lines as they are painted: each followed by a carriage return and a
/// line feed.
pub open spec fn painted(lines: Seq<Seq<char>>) -> Seq<char>
    decreases lines.len(),
{
    if lines.len() == 0 {
        Seq::empty()
    } else {
        painted(lines.drop_last()) + lines.last() + seq!['\r', '\n']
    }
}

/// The text of a redraw: the lines, then the sequence that places the cursor.
pub open spec fn frame(lines: Seq<Seq<char>>, cursor: ScreenPosition) -> Seq<char> {
    painted(lines) + goto_text(cursor.column, cursor.row)
}

/// The text of a redraw that shows a message: the lines, the message on the
/// line below them, then the sequence that places the cursor.
pub open spec fn frame_with(
    lines: Seq<Seq<char>>,
    message: Seq<char>,
    cursor: ScreenPosition,
) -> Seq<char> {
    painted(lines) + message + goto_text(cursor.column, cursor.row)
}

/// One more than `n`, as far as sixteen bits reach.
pub open spec fn screen_coordinate(n: usize) -> u16 {
    if n + 1 > u16::MAX {
        u16::MAX
    } else {
        (n + 1) as u16
    }
}

/// Where the terminal shows a position of the document: the terminal counts
/// from one, the document from zero.
pub open spec fn on_screen(p: Position) -> ScreenPosition {
    ScreenPosition { row: screen_coordinate(p.row), column: screen_coordinate(p.column) }
}

/// The text of `termion::cursor::Goto(column, row)`: escape, `[`, the row in
/// decimal, `;`, the column in decimal, `H`. Believed of termion, not proved.
/// `Goto(0, 0)`, on which termion's own assertion fails, is left out.
#[verifier::external_body]
pub(crate) fn goto_sequence(column: u16, row: u16) -> (sequence: String)
    requires
        column != 0 || row != 0,
    ensures
        sequence@ == goto_text(column, row),
{
    format!("{}", termion::cursor::Goto(column, row))
}

/// The screen coordinate of the document coordinate `n`.
fn to_screen(n: usize) -> (c: u16)
    ensures
        c == screen_coordinate(n),
        c >= 1,
{
    if n >= 0xffff {
        0xffff
    } else {
        (n + 1) as u16
    }
}

/// Where the terminal is to show the position `p` of the document.
pub fn screen_position(p: Position) -> (s: ScreenPosition)
    ensures
        s == on_screen(p),
        s.row >= 1,
        s.column >= 1,
{
    ScreenPosition { row: to_screen(p.row), column: to_screen(p.column) }
}

} // verus!
