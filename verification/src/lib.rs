//! A single-document text buffer with multi-caret navigation and editing.

pub mod buffer;
pub mod caret;
pub mod editor;
pub mod history;
pub mod laws;
pub mod line;
pub mod model;
pub mod screen;
pub mod text;
pub mod trusted;
pub mod window;
