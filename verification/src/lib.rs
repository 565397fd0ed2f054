//! A line editor for terminal input: an editable line split at the cursor,
//! word-wise movement and deletion, and recall of earlier lines.
//!
//! The editor takes key strokes one at a time and tells its caller what to
//! do next: paint the line again, take the completed line, or leave. It
//! reads no terminal and paints nothing itself.

pub mod key;
pub mod laws;
pub mod model;
pub mod repl;
pub mod text;
pub mod words;

pub use key::{Key, KeyInput};
pub use repl::{Action, Repl};
