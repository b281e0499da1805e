//! The engine of a modal text editor: the document and its cursor, the rules
//! by which the cursor moves, the table of mode transitions, the command line,
//! and the session that ties them together. Reading keys, painting the
//! terminal and touching files are left to the program around this library.

pub mod buffer;
pub mod command;
pub mod cursor;
pub mod error;
pub mod lines;
pub mod mode;
pub mod position;
pub mod session;
pub mod strings;
pub mod terminal;
