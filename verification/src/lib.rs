//! Editing core of a terminal-based modal text editor: a line store, a
//! per-document cursor/selection/scroll model, a registry of open documents,
//! and a modal input-dispatch state machine.
//!
//! Each operation's contract is stated over a mathematical view of the
//! state, and every operation keeps the cursor invariants: the cursor lies
//! on an existing line (or at the origin while the store is empty) and never
//! past the end of its line.

pub mod app;
pub mod buffer;
pub mod bufferentry;
pub mod insertmode;
pub mod mode;
pub mod modeutil;
pub mod navigationmode;
pub mod normalmode;
pub mod selectmode;
