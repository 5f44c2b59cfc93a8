//! Editing core of a modal, terminal-based text editor: a grapheme-indexed
//! text buffer and the cursor, mode and selection logic that operates on it.

pub mod clusters;
pub mod commands;
pub mod document;
pub mod editor;
pub mod lines;
pub mod mappings;
pub mod row;
pub mod segmentation;
pub mod strings;

pub use document::Document;
pub use editor::Mode;
pub use editor::Position;
pub use editor::SelectedText;
pub use row::Row;
