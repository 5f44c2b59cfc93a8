//! A table from key names to cursor movements.

use crate::commands::cursor_cmds::{
    move_cursor_down, move_cursor_left, move_cursor_right, move_cursor_up, moved_down,
    moved_left, moved_right, moved_up,
};
use crate::document::Document;
use crate::editor::{Mode, Position};
use vstd::prelude::*;
use vstd::string::StringExecFns;

verus! {

/// How a movement treats the ends of a line.
#[derive(Debug, Clone, Copy, PartialEq, Eq, Structural)]
pub struct MoveOptions {
    /// The cursor may cross from one line to the next or the previous one.
    pub allow_wrap: bool,
    /// The cursor may rest one past the last cluster of a line.
    pub allow_eol: bool,
}

/// The movement bound to `name`, applied to `pos`: `h` moves left, `j` down,
/// `k` up and `l` right. Any other name is not bound and leaves `pos` alone.
pub open spec fn moved_by(
    name: Seq<char>,
    pos: Position,
    lines: Seq<Seq<char>>,
    opts: MoveOptions,
) -> Position {
    if name == "h"@ {
        moved_left(pos, lines, opts.allow_wrap)
    } else if name == "j"@ {
        moved_down(pos, lines, 1)
    } else if name == "k"@ {
        moved_up(pos, 1)
    } else if name == "l"@ {
        moved_right(pos, lines, opts.allow_eol, opts.allow_wrap)
    } else {
        pos
    }
}

/// Whether a movement is bound to `name`.
pub open spec fn is_bound(name: Seq<char>) -> bool {
    name == "h"@ || name == "j"@ || name == "k"@ || name == "l"@
}

/// The movement keys of a mode.
#[derive(Debug)]
pub struct Mappings {
    mode: Mode,
}

impl Default for Mappings {
    /// The movement keys of normal mode.
    fn default() -> (mappings: Mappings)
        ensures
            mappings.mode() == Mode::Normal,
    {
        Mappings { mode: Mode::Normal }
    }
}

impl Mappings {
    /// The mode these keys belong to.
    pub closed spec fn mode(&self) -> Mode {
        self.mode
    }

    /// Applies the movement bound to the key named `arg` to `pos`. A movement
    /// must be bound to that key.
    pub fn call_fn(&self, arg: &String, pos: &mut Position, doc: &Document, opts: MoveOptions)
        requires
            is_bound(arg@),
        ensures
            *final(pos) == moved_by(arg@, *old(pos), doc@.lines, opts),
    {
        if *arg == String::from_str("h") {
            move_cursor_left(pos, doc, opts.allow_wrap);
        } else if *arg == String::from_str("j") {
            move_cursor_down(pos, doc);
        } else if *arg == String::from_str("k") {
            move_cursor_up(pos);
        } else {
            move_cursor_right(pos, doc, opts.allow_eol, opts.allow_wrap);
        }
    }
}

} // verus!
