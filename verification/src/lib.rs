//! Material Design theming and widget logic for an immediate-mode GUI.
//!
//! The crate derives a Material color scheme from a seed color, resolves
//! per-widget styles from it, and runs the text-field editing engine:
//! cursor and selection handling, text mutation, undo/redo and IME
//! composition over a plain character buffer.

pub mod buffer;
pub mod cursor;
pub mod engine;
pub mod events;
pub mod scroll;
pub mod state;
pub mod theme;
pub mod undo;
pub mod widgets;
