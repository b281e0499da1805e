//! The modes of the editor and the table of their transitions.

use vstd::prelude::*;
use crate::cursor::Direction;
use crate::position::Position;

verus! {

/// One logical key event, as the key source delivers it.
#[derive(Clone, Copy, Debug, PartialEq, Eq, Structural)]
pub enum Key {
    /// A character key.
    Char(char),
    /// A character key pressed together with control.
    Ctrl(char),
    /// The escape key.
    Escape,
    /// The enter key.
    Enter,
    /// The backspace key.
    Backspace,
    /// Any other key: an arrow, a function key and the like.
    Other,
}

/// The mode in which keys are read. The visual modes carry their anchor: the
/// cursor position at the moment the mode was entered, one end of the
/// selection whose other end is the cursor.
#[derive(Clone, Copy, Debug, PartialEq, Eq, Structural)]
pub enum Mode {
    /// Keys are commands.
    Normal,
    /// Keys are text.
    Insert,
    /// Selecting by characters, from the anchor.
    Visual(Position),
    /// Selecting by lines, from the anchor.
    VisualLine(Position),
    /// Selecting a block, from the anchor.
    VisualBlock(Position),
    /// Keys go to the command line.
    CommandLine,
}

/// What a key does to the document or the command line.
#[derive(Clone, Copy, Debug, PartialEq, Eq, Structural)]
pub enum Effect {
    /// Nothing.
    Nothing,
    /// Move the cursor by the cursor policy.
    Move(Direction),
    /// Insert the character at the cursor and step over it.
    InsertChar(char),
    /// Break the line at the cursor and go to the start of the new line.
    BreakLine,
    /// Delete what stands before the cursor: a character, or the line break.
    EraseBack,
    /// Empty the command line.
    ClearCommand,
    /// Add the character to the command line.
    PushCommand(char),
    /// Take the last character off the command line.
    PopCommand,
    /// Run the command line, then empty it.
    SubmitCommand,
    /// End the session.
    Terminate,
}

/// One entry of the transition table: the mode after the key, and the effect
/// of the key.
#[derive(Clone, Copy, Debug, PartialEq, Eq, Structural)]
pub struct Transition {
    pub next: Mode,
    pub effect: Effect,
}

/// A character that can be typed into the text: any that is not a control
/// character.
pub open spec fn is_printable(c: char) -> bool {
    ' ' <= c && !('\u{7f}' <= c <= '\u{9f}')
}

/// The movement that a character key stands for, if any.
pub open spec fn motion_of(c: char) -> Option<Direction> {
    if c == 'h' {
        Some(Direction::Left)
    } else if c == 'j' {
        Some(Direction::Down)
    } else if c == 'k' {
        Some(Direction::Up)
    } else if c == 'l' {
        Some(Direction::Right)
    } else {
        None
    }
}

impl Mode {
    /// The anchor of a visual mode.
    pub open spec fn anchor_of(self) -> Option<Position> {
        match self {
            Mode::Visual(anchor) => Some(anchor),
            Mode::VisualLine(anchor) => Some(anchor),
            Mode::VisualBlock(anchor) => Some(anchor),
            _ => None,
        }
    }

    /// The anchor of a visual mode; `None` in the other modes.
    pub fn anchor(&self) -> (anchor: Option<Position>)
        ensures
            anchor == self.anchor_of(),
    {
        match self {
            Mode::Visual(anchor) => Some(*anchor),
            Mode::VisualLine(anchor) => Some(*anchor),
            Mode::VisualBlock(anchor) => Some(*anchor),
            _ => None,
        }
    }
}

/// A key that changes nothing: the mode stays, and there is no effect.
pub open spec fn ignored(mode: Mode) -> Transition {
    Transition { next: mode, effect: Effect::Nothing }
}

/// The rows of the table for normal mode.
pub open spec fn normal_entry(key: Key, cursor: Position) -> Transition {
    match key {
        Key::Char(c) => if c == 'i' {
            Transition { next: Mode::Insert, effect: Effect::Nothing }
        } else if c == 'v' {
            Transition { next: Mode::Visual(cursor), effect: Effect::Nothing }
        } else if c == 'V' {
            Transition { next: Mode::VisualLine(cursor), effect: Effect::Nothing }
        } else if c == ':' {
            Transition { next: Mode::CommandLine, effect: Effect::ClearCommand }
        } else if c == 'q' {
            Transition { next: Mode::Normal, effect: Effect::Terminate }
        } else if let Some(direction) = motion_of(c) {
            Transition { next: Mode::Normal, effect: Effect::Move(direction) }
        } else {
            ignored(Mode::Normal)
        },
        Key::Ctrl(c) => if c == 'v' {
            Transition { next: Mode::VisualBlock(cursor), effect: Effect::Nothing }
        } else {
            ignored(Mode::Normal)
        },
        _ => ignored(Mode::Normal),
    }
}

/// The rows of the table for insert mode.
pub open spec fn insert_entry(key: Key) -> Transition {
    match key {
        Key::Char(c) => if is_printable(c) {
            Transition { next: Mode::Insert, effect: Effect::InsertChar(c) }
        } else {
            ignored(Mode::Insert)
        },
        Key::Enter => Transition { next: Mode::Insert, effect: Effect::BreakLine },
        Key::Backspace => Transition { next: Mode::Insert, effect: Effect::EraseBack },
        Key::Escape => Transition { next: Mode::Normal, effect: Effect::Nothing },
        _ => ignored(Mode::Insert),
    }
}

/// The rows of the table for the three visual modes; `mode` is the one that
/// is active.
pub open spec fn visual_entry(mode: Mode, key: Key) -> Transition {
    match key {
        Key::Char(c) => if let Some(direction) = motion_of(c) {
            Transition { next: mode, effect: Effect::Move(direction) }
        } else {
            ignored(mode)
        },
        Key::Escape => Transition { next: Mode::Normal, effect: Effect::Nothing },
        _ => ignored(mode),
    }
}

/// The rows of the table for command-line mode.
pub open spec fn command_entry(key: Key) -> Transition {
    match key {
        Key::Char(c) => if is_printable(c) {
            Transition { next: Mode::CommandLine, effect: Effect::PushCommand(c) }
        } else {
            ignored(Mode::CommandLine)
        },
        Key::Backspace => Transition { next: Mode::CommandLine, effect: Effect::PopCommand },
        Key::Enter => Transition { next: Mode::Normal, effect: Effect::SubmitCommand },
        Key::Escape => Transition { next: Mode::Normal, effect: Effect::ClearCommand },
        _ => ignored(Mode::CommandLine),
    }
}

/// The transition table: for every mode and every key, the next mode and the
/// effect. `cursor` is where the cursor stands; a visual mode that is entered
/// takes it as its anchor.
pub open spec fn transition_of(mode: Mode, key: Key, cursor: Position) -> Transition {
    match mode {
        Mode::Normal => normal_entry(key, cursor),
        Mode::Insert => insert_entry(key),
        Mode::Visual(_) => visual_entry(mode, key),
        Mode::VisualLine(_) => visual_entry(mode, key),
        Mode::VisualBlock(_) => visual_entry(mode, key),
        Mode::CommandLine => command_entry(key),
    }
}

/// Whether `c` can be typed into the text.
pub fn printable(c: char) -> (yes: bool)
    ensures
        yes == is_printable(c),
{
    ' ' <= c && !('\u{7f}' <= c && c <= '\u{9f}')
}

/// The movement that the character key `c` stands for: `h`, `j`, `k` and `l`
/// are left, down, up and right.
pub fn motion(c: char) -> (direction: Option<Direction>)
    ensures
        direction == motion_of(c),
{
    if c == 'h' {
        Some(Direction::Left)
    } else if c == 'j' {
        Some(Direction::Down)
    } else if c == 'k' {
        Some(Direction::Up)
    } else if c == 'l' {
        Some(Direction::Right)
    } else {
        None
    }
}

/// Looks up the transition table: what `key` does in `mode` with the cursor at
/// `cursor`. Every key has an entry in every mode; a key that a mode does not
/// know changes nothing.
pub fn transition(mode: Mode, key: Key, cursor: Position) -> (t: Transition)
    ensures
        t == transition_of(mode, key, cursor),
{
    let stay = Transition { next: mode, effect: Effect::Nothing };
    match mode {
        Mode::Normal => match key {
            Key::Char(c) => {
                if c == 'i' {
                    Transition { next: Mode::Insert, effect: Effect::Nothing }
                } else if c == 'v' {
                    Transition { next: Mode::Visual(cursor), effect: Effect::Nothing }
                } else if c == 'V' {
                    Transition { next: Mode::VisualLine(cursor), effect: Effect::Nothing }
                } else if c == ':' {
                    Transition { next: Mode::CommandLine, effect: Effect::ClearCommand }
                } else if c == 'q' {
                    Transition { next: Mode::Normal, effect: Effect::Terminate }
                } else {
                    match motion(c) {
                        Some(direction) => Transition {
                            next: Mode::Normal,
                            effect: Effect::Move(direction),
                        },
                        None => stay,
                    }
                }
            },
            Key::Ctrl(c) => {
                if c == 'v' {
                    Transition { next: Mode::VisualBlock(cursor), effect: Effect::Nothing }
                } else {
                    stay
                }
            },
            _ => stay,
        },
        Mode::Insert => match key {
            Key::Char(c) => {
                if printable(c) {
                    Transition { next: Mode::Insert, effect: Effect::InsertChar(c) }
                } else {
                    stay
                }
            },
            Key::Enter => Transition { next: Mode::Insert, effect: Effect::BreakLine },
            Key::Backspace => Transition { next: Mode::Insert, effect: Effect::EraseBack },
            Key::Escape => Transition { next: Mode::Normal, effect: Effect::Nothing },
            _ => stay,
        },
        Mode::Visual(_) | Mode::VisualLine(_) | Mode::VisualBlock(_) => match key {
            Key::Char(c) => match motion(c) {
                Some(direction) => Transition { next: mode, effect: Effect::Move(direction) },
                None => stay,
            },
            Key::Escape => Transition { next: Mode::Normal, effect: Effect::Nothing },
            _ => stay,
        },
        Mode::CommandLine => match key {
            Key::Char(c) => {
                if printable(c) {
                    Transition { next: Mode::CommandLine, effect: Effect::PushCommand(c) }
                } else {
                    stay
                }
            },
            Key::Backspace => Transition { next: Mode::CommandLine, effect: Effect::PopCommand },
            Key::Enter => Transition { next: Mode::Normal, effect: Effect::SubmitCommand },
            Key::Escape => Transition { next: Mode::Normal, effect: Effect::ClearCommand },
            _ => stay,
        },
    }
}

} // verus!
