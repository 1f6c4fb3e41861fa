//! The core of a small modal text editor: a line-oriented text buffer, a
//! cursor that always stays inside it, and a two-mode key interpreter that
//! turns key events into cursor moves and buffer edits.
pub mod buffer;
pub mod cursor;
pub mod mode;
pub mod session;
pub mod laws;
pub mod layout;
