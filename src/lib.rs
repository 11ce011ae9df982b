//! The state and decisions of a small text-entry window: a click counter,
//! a text buffer fed by character messages, what a repaint draws, and when
//! the message loop stops.

pub mod editor;
pub mod laws;
pub mod wide;
pub mod paint;
pub mod shell;

pub use editor::{Editor, EditorModel, Event, Reply};
