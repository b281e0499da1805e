//! Positions in a document.

use vstd::prelude::*;

verus! {

/// A place in the document, counted from zero. A column may equal the length
/// of its line: the place after the last character.
#[derive(Clone, Copy, Debug, PartialEq, Eq, Structural)]
pub struct Position {
    pub row: usize,
    pub column: usize,
}

/// A document has at least one line, and its sizes fit the machine.
pub open spec fn valid_text(lines: Seq<Seq<char>>) -> bool {
    &&& 1 <= lines.len() <= usize::MAX
    &&& forall|i: int| 0 <= i < lines.len() ==> (#[trigger] lines[i]).len() <= usize::MAX
}

/// `p` names a line of `lines` and a column on or just after that line.
pub open spec fn in_bounds(lines: Seq<Seq<char>>, p: Position) -> bool {
    &&& p.row < lines.len()
    &&& p.column <= lines[p.row as int].len()
}

/// The position nearest to `p` that is in bounds: the row is pulled back to
/// the last line, then the column to the end of that line.
pub open spec fn clamped(lines: Seq<Seq<char>>, p: Position) -> Position {
    let row = if p.row < lines.len() {
        p.row
    } else {
        (lines.len() - 1) as usize
    };
    let width = lines[row as int].len();
    Position {
        row,
        column: if p.column <= width {
            p.column
        } else {
            width as usize
        },
    }
}

/// Clamping lands in bounds, and leaves a position that is in bounds alone.
pub proof fn lemma_clamped_in_bounds(lines: Seq<Seq<char>>, p: Position)
    requires
        lines.len() >= 1,
    ensures
        in_bounds(lines, clamped(lines, p)),
        in_bounds(lines, p) ==> clamped(lines, p) == p,
{
}

} // verus!
