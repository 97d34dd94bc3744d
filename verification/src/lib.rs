//! Core of a small modal text editor: a line store with character-level
//! editing, a cursor and viewport model with minimal scrolling, a three-mode
//! input state machine, a command interpreter, and a pure render planner.
//! All terminal and file I/O lives outside this crate; the library works on
//! plain byte values only.

pub mod buffer;
pub mod editor;
pub mod render;
pub mod row;
pub mod text;
