//! The editing commands: cursor movement, edits at the cursor, and selection
//! handling.

pub mod cursor_cmds;
pub mod edit_cmds;
pub mod visual_cmds;
