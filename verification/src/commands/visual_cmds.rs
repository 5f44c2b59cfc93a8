//! Selection handling in visual mode.

use crate::commands::cursor_cmds::{last_index, width_at};
use crate::document::Document;
use crate::editor::{Mode, Position, SelectedText};
use vstd::prelude::*;

verus! {

/// The position a selection extends to when the cursor is at `at`: the
/// cursor's position, pulled back onto the last cluster of its line when it
/// lies past it. A line that does not exist counts as empty.
pub open spec fn selection_end(at: Position, lines: Seq<Seq<char>>) -> Position {
    let last = last_index(width_at(lines, at.y as int));
    Position {
        y: at.y,
        x: if at.x >= last {
            last as usize
        } else {
            at.x
        },
    }
}

/// Enters visual mode from normal mode, starting a selection of the single
/// position `at`. In any other mode nothing changes.
pub fn enter_visual_mode(at: &Position, selected: &mut SelectedText, mode: &mut Mode)
    ensures
        *old(mode) == Mode::Normal ==> *final(mode) == Mode::Visual && *final(selected) == (
        SelectedText { start: *at, end: *at }),
        *old(mode) != Mode::Normal ==> *final(mode) == *old(mode) && *final(selected) == *old(
            selected,
        ),
{
    if *mode == Mode::Normal {
        selected.start = *at;
        selected.end = *at;
        *mode = Mode::Visual;
    }
}

/// Extends the selection to the cursor at `at`. The end of a selection is
/// always on a cluster, never one past the end of a line.
pub fn update_selection(at: &Position, selected: &mut SelectedText, doc: &Document)
    ensures
        *final(selected) == (SelectedText {
            end: selection_end(*at, doc@.lines),
            ..*old(selected)
        }),
{
    let width = match doc.row_len(at.y) {
        Some(width) => width,
        None => 0,
    };
    let last = width.saturating_sub(1);
    if at.x >= last {
        selected.end = Position { x: last, y: at.y };
    } else {
        selected.end = *at;
    }
}

} // verus!
