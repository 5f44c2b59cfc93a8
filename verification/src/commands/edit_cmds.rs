//! Edits at the cursor.

use crate::commands::cursor_cmds::{move_cursor_left, moved_left, width_at};
use crate::document::{lines_deleted, Document};
use crate::editor::Position;
use vstd::prelude::*;

verus! {

/// Where a line break goes to open a new line below line `y`: at the end of
/// that line, or at the very start of the document when there is no line `y`.
pub open spec fn line_break_after(lines: Seq<Seq<char>>, y: usize) -> Position {
    if y < lines.len() {
        Position { x: width_at(lines, y as int) as usize, y }
    } else {
        Position { x: 0, y: 0 }
    }
}

/// Where the cursor `at` goes when its line is deleted from `lines`: up by
/// one line when it is left one past the last line, else nowhere.
pub open spec fn after_line_deleted(at: Position, lines: Seq<Seq<char>>) -> Position {
    let left = lines_deleted(lines, at.y as int, at.y as int);
    if lines.len() != 0 && at.y == left.len() {
        Position { y: at.y.saturating_sub(1), ..at }
    } else {
        at
    }
}

/// Deletes at the cursor: the cluster under it, or the line break when the
/// cursor is at the end of a line that has a successor.
pub fn delete(at: &Position, doc: &mut Document)
    ensures
        final(doc)@ == old(doc)@.delete(*at),
        old(doc)@.single_lines() ==> final(doc)@.single_lines(),
{
    doc.delete(at);
}

/// Deletes the line under the cursor. When that was the last line, the
/// cursor moves up onto the line that is now last.
pub fn delete_line(at: &mut Position, doc: &mut Document)
    ensures
        final(doc)@ == old(doc)@.delete_line(old(at).y as int),
        old(doc)@.single_lines() ==> final(doc)@.single_lines(),
        *final(at) == after_line_deleted(*old(at), old(doc)@.lines),
{
    let len = doc.len();
    if len != 0 {
        doc.delete_line(at.y);
        if at.y == doc.len() {
            at.y = at.y.saturating_sub(1);
        }
    }
}

/// Deletes the text from `at` to `end`, both inclusive.
pub fn delete_selection(at: &Position, end: &Position, doc: &mut Document)
    ensures
        final(doc)@ == old(doc)@.delete_slice(*at, *end),
        old(doc)@.single_lines() ==> final(doc)@.single_lines(),
{
    doc.delete_slice(at, end);
}

/// Deletes from the cursor to the end of its line; the line break stays.
pub fn delete_until_eol(at: &Position, doc: &mut Document)
    ensures
        final(doc)@ == old(doc)@.delete_until_eol(*at),
        old(doc)@.single_lines() ==> final(doc)@.single_lines(),
{
    doc.delete_until_eol(at);
}

/// Joins the line under the cursor with the next one.
pub fn delete_to_eol(at: &Position, doc: &mut Document)
    ensures
        final(doc)@ == old(doc)@.delete_to_eol(*at),
        old(doc)@.single_lines() ==> final(doc)@.single_lines(),
{
    doc.delete_to_eol(at);
}

/// Inserts `c` at the cursor.
pub fn insert(at: &Position, doc: &mut Document, c: char)
    ensures
        final(doc)@ == old(doc)@.insert(*at, c),
        old(doc)@.single_lines() && c != '\n' ==> final(doc)@.single_lines(),
{
    doc.insert(at, c);
}

/// Breaks the line at the cursor. The cursor itself stays where it is.
pub fn insert_newline(at: &mut Position, doc: &mut Document)
    ensures
        final(doc)@ == old(doc)@.insert_newline(*old(at)),
        old(doc)@.single_lines() ==> final(doc)@.single_lines(),
        *final(at) == *old(at),
{
    doc.insert_newline(at);
}

/// Opens an empty line below the line under the cursor. The cursor itself
/// stays where it is.
pub fn insert_newline_below(at: &mut Position, doc: &mut Document)
    ensures
        final(doc)@ == old(doc)@.insert_newline(line_break_after(old(doc)@.lines, old(at).y)),
        old(doc)@.single_lines() ==> final(doc)@.single_lines(),
        *final(at) == *old(at),
{
    let target = match doc.row_len(at.y) {
        Some(len) => Position { x: len, y: at.y },
        None => Position { x: 0, y: 0 },
    };
    doc.insert_newline(&target);
}

/// Opens an empty line below the line before the cursor's, which puts it
/// above the line under the cursor. The cursor itself stays where it is.
pub fn insert_newline_above(at: &mut Position, doc: &mut Document)
    ensures
        final(doc)@ == old(doc)@.insert_newline(
            line_break_after(old(doc)@.lines, old(at).y.saturating_sub(1)),
        ),
        old(doc)@.single_lines() ==> final(doc)@.single_lines(),
        *final(at) == *old(at),
{
    let above = at.y.saturating_sub(1);
    let target = match doc.row_len(above) {
        Some(len) => Position { x: len, y: above },
        None => Position { x: 0, y: 0 },
    };
    doc.insert_newline(&target);
}

/// Moves the cursor one step back, across a line break if need be, and
/// deletes what is then under it.
pub fn delete_backspace(at: &mut Position, doc: &mut Document)
    ensures
        *final(at) == moved_left(*old(at), old(doc)@.lines, true),
        final(doc)@ == old(doc)@.delete(*final(at)),
        old(doc)@.single_lines() ==> final(doc)@.single_lines(),
{
    move_cursor_left(at, doc, true);
    doc.delete(at);
}

} // verus!
