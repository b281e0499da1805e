//! The cursor policy: where a movement takes the cursor.

use vstd::prelude::*;
use crate::buffer::Buffer;
use crate::position::{Position, in_bounds, clamped, lemma_clamped_in_bounds};

verus! {

/// The movement a key asks for.
#[derive(Clone, Copy, Debug, PartialEq, Eq, Structural)]
pub enum Direction {
    /// To the line above.
    Up,
    /// To the line below.
    Down,
    /// One column back.
    Left,
    /// One column on.
    Right,
}

/// Where one movement from `p` ends. `Left` and `Right` stay on the row and
/// stop at column zero and just after the last character. `Up` and `Down` stop
/// at the first and last line; the column is kept, unless the new line is
/// shorter, where it becomes that line's length. A `p` outside the document
/// is first pulled back into it.
pub open spec fn moved(lines: Seq<Seq<char>>, p: Position, intent: Direction) -> Position {
    let q = clamped(lines, p);
    match intent {
        Direction::Left => Position {
            row: q.row,
            column: if q.column > 0 {
                (q.column - 1) as usize
            } else {
                q.column
            },
        },
        Direction::Right => Position {
            row: q.row,
            column: if q.column < lines[q.row as int].len() {
                (q.column + 1) as usize
            } else {
                q.column
            },
        },
        Direction::Up => clamped(
            lines,
            Position {
                row: if q.row > 0 {
                    (q.row - 1) as usize
                } else {
                    q.row
                },
                column: q.column,
            },
        ),
        Direction::Down => clamped(
            lines,
            Position {
                row: if q.row + 1 < lines.len() {
                    (q.row + 1) as usize
                } else {
                    q.row
                },
                column: q.column,
            },
        ),
    }
}

/// Where a sequence of movements from `p` ends, the first of them made first.
pub open spec fn moved_along(
    lines: Seq<Seq<char>>,
    p: Position,
    intents: Seq<Direction>,
) -> Position
    decreases intents.len(),
{
    if intents.len() == 0 {
        p
    } else {
        moved(lines, moved_along(lines, p, intents.drop_last()), intents.last())
    }
}

/// A movement ends in bounds, from wherever it starts.
pub proof fn lemma_moved_in_bounds(lines: Seq<Seq<char>>, p: Position, intent: Direction)
    requires
        lines.len() >= 1,
    ensures
        in_bounds(lines, moved(lines, p, intent)),
{
    lemma_clamped_in_bounds(lines, p);
    let q = clamped(lines, p);
    match intent {
        Direction::Up => {
            lemma_clamped_in_bounds(
                lines,
                Position {
                    row: if q.row > 0 {
                        (q.row - 1) as usize
                    } else {
                        q.row
                    },
                    column: q.column,
                },
            );
        },
        Direction::Down => {
            lemma_clamped_in_bounds(
                lines,
                Position {
                    row: if q.row + 1 < lines.len() {
                        (q.row + 1) as usize
                    } else {
                        q.row
                    },
                    column: q.column,
                },
            );
        },
        _ => {},
    }
}

/// From a cursor that is in bounds, no sequence of movements leads out of
/// bounds.
pub proof fn lemma_moves_stay_in_bounds(
    lines: Seq<Seq<char>>,
    start: Position,
    intents: Seq<Direction>,
)
    requires
        lines.len() >= 1,
        in_bounds(lines, start),
    ensures
        in_bounds(lines, moved_along(lines, start, intents)),
    decreases intents.len(),
{
    if intents.len() > 0 {
        lemma_moves_stay_in_bounds(lines, start, intents.drop_last());
        lemma_moved_in_bounds(
            lines,
            moved_along(lines, start, intents.drop_last()),
            intents.last(),
        );
    }
}

/// The position one movement away from `current` in `buffer`. The buffer is
/// not changed.
pub fn move_cursor(current: Position, intent: Direction, buffer: &Buffer) -> (next: Position)
    requires
        buffer.wf(),
    ensures
        next == moved(buffer@.lines, current, intent),
        in_bounds(buffer@.lines, next),
{
    proof {
        lemma_moved_in_bounds(buffer@.lines, current, intent);
    }
    let q = buffer.clamp(current);
    match intent {
        Direction::Left => Position {
            row: q.row,
            column: if q.column > 0 {
                q.column - 1
            } else {
                q.column
            },
        },
        Direction::Right => Position {
            row: q.row,
            column: if q.column < buffer.width(q.row) {
                q.column + 1
            } else {
                q.column
            },
        },
        Direction::Up => buffer.clamp(
            Position {
                row: if q.row > 0 {
                    q.row - 1
                } else {
                    q.row
                },
                column: q.column,
            },
        ),
        Direction::Down => buffer.clamp(
            Position {
                row: if q.row < buffer.line_count() - 1 {
                    q.row + 1
                } else {
                    q.row
                },
                column: q.column,
            },
        ),
    }
}

} // verus!
