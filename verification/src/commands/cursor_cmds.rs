//! Cursor movement. Every command takes the position to move and reads the
//! document; none changes the text.

use crate::document::Document;
use crate::editor::{Mode, Position};
use crate::segmentation::grapheme_len;
use vstd::prelude::*;

verus! {

/// Number of grapheme clusters in line `y` of `lines`; zero when there is no
/// such line.
pub open spec fn width_at(lines: Seq<Seq<char>>, y: int) -> nat {
    if 0 <= y < lines.len() {
        grapheme_len(lines[y])
    } else {
        0
    }
}

/// The last index below `count`, or zero when `count` is zero.
pub open spec fn last_index(count: nat) -> nat {
    if count == 0 {
        0
    } else {
        (count - 1) as nat
    }
}

/// The largest column a cursor may rest at, in `mode`, on a line of `width`
/// clusters. In normal mode the cursor sits on a cluster; in insert and
/// visual mode it may sit one past the last cluster.
pub open spec fn max_column(mode: Mode, width: nat) -> nat {
    match mode {
        Mode::Normal => last_index(width),
        _ => width,
    }
}

/// The column a cursor is given when it is brought back from beyond the last
/// line onto a line of `width` clusters.
pub open spec fn landing_column(mode: Mode, width: nat) -> nat {
    match mode {
        Mode::Visual => width,
        _ => last_index(width),
    }
}

/// The valid position nearest to `pos` for a cursor in `mode`.
///
/// A position beyond the last line moves to the last line (line 0 of an
/// empty document) and takes its landing column there. On an existing line a
/// column beyond the largest valid one is pulled back to it. In command mode
/// the cursor does not address the document and is left alone.
pub open spec fn clamped(pos: Position, lines: Seq<Seq<char>>, mode: Mode) -> Position {
    if mode == Mode::Command {
        pos
    } else if pos.y >= lines.len() {
        let y = last_index(lines.len());
        Position { y: y as usize, x: landing_column(mode, width_at(lines, y as int)) as usize }
    } else {
        let max = max_column(mode, width_at(lines, pos.y as int));
        Position {
            y: pos.y,
            x: if pos.x > max {
                max as usize
            } else {
                pos.x
            },
        }
    }
}

/// `pos` moved to the end of its line: onto the last cluster, or one past it
/// when `eol` is set. Unchanged when the line does not exist.
pub open spec fn at_line_end(pos: Position, lines: Seq<Seq<char>>, eol: bool) -> Position {
    if pos.y >= lines.len() {
        pos
    } else {
        let width = width_at(lines, pos.y as int);
        Position {
            y: pos.y,
            x: (if eol {
                width
            } else {
                last_index(width)
            }) as usize,
        }
    }
}

/// `pos` moved up by `number` lines, stopping at the first line.
pub open spec fn moved_up(pos: Position, number: usize) -> Position {
    Position { y: pos.y.saturating_sub(number), ..pos }
}

/// `pos` moved down by `number` lines, stopping at the last line (line 0 of
/// an empty document).
pub open spec fn moved_down(pos: Position, lines: Seq<Seq<char>>, number: usize) -> Position {
    Position {
        y: if pos.y + number < lines.len() {
            (pos.y + number) as usize
        } else {
            last_index(lines.len()) as usize
        },
        x: pos.x,
    }
}

/// `pos` moved one column to the left.
///
/// At column 0 of a line other than the first, with `wrap` set, the position
/// moves to one past the last cluster of the previous line. A column beyond
/// the end of a non-empty line moves onto its last cluster. Otherwise the
/// column decreases by one, stopping at 0. Unchanged when the line does not
/// exist.
pub open spec fn moved_left(pos: Position, lines: Seq<Seq<char>>, wrap: bool) -> Position {
    if pos.y >= lines.len() {
        pos
    } else {
        let width = width_at(lines, pos.y as int);
        if pos.x == 0 && pos.y > 0 && wrap {
            Position { y: (pos.y - 1) as usize, x: width_at(lines, pos.y - 1) as usize }
        } else if pos.x > width && width > 0 {
            Position { y: pos.y, x: (width - 1) as usize }
        } else {
            Position { y: pos.y, x: pos.x.saturating_sub(1) }
        }
    }
}

/// `pos` after `number` moves to the left.
pub open spec fn moved_left_n(
    pos: Position,
    lines: Seq<Seq<char>>,
    wrap: bool,
    number: nat,
) -> Position
    decreases number,
{
    if number == 0 {
        pos
    } else {
        moved_left(moved_left_n(pos, lines, wrap, (number - 1) as nat), lines, wrap)
    }
}

/// `pos` moved one column to the right.
///
/// Before the last cluster of its line the column increases by one. On the
/// last cluster it increases by one only when `eol` is set. One past the last
/// cluster of a line other than the last, with `wrap` set, the position moves
/// to column 0 of the next line. In every other case, and when the line does
/// not exist, the position is unchanged.
pub open spec fn moved_right(
    pos: Position,
    lines: Seq<Seq<char>>,
    eol: bool,
    wrap: bool,
) -> Position {
    if pos.y >= lines.len() {
        pos
    } else {
        let width = width_at(lines, pos.y as int);
        if pos.x + 1 < width {
            Position { y: pos.y, x: (pos.x + 1) as usize }
        } else if pos.x + 1 == width && eol {
            Position { y: pos.y, x: (pos.x + 1) as usize }
        } else if pos.x == width && pos.y + 1 < lines.len() && wrap {
            Position { y: (pos.y + 1) as usize, x: 0 }
        } else {
            pos
        }
    }
}

/// `pos` after `number` moves to the right.
pub open spec fn moved_right_n(
    pos: Position,
    lines: Seq<Seq<char>>,
    eol: bool,
    wrap: bool,
    number: nat,
) -> Position
    decreases number,
{
    if number == 0 {
        pos
    } else {
        moved_right(moved_right_n(pos, lines, eol, wrap, (number - 1) as nat), lines, eol, wrap)
    }
}

/// How far the viewport advances on a page down from line `y` in a document
/// of `count` lines: a full page of `height` lines while the cursor stays
/// short of the end, else exactly the distance from `y` to the last line.
pub open spec fn page_advance(y: usize, count: nat, height: usize) -> nat {
    if y + height < count {
        height as nat
    } else if y + 1 < count {
        (count - y - 1) as nat
    } else {
        0
    }
}

/// The viewport `offset` after a page down of the cursor `at`.
pub open spec fn viewport_paged_down(
    offset: Position,
    at: Position,
    lines: Seq<Seq<char>>,
    height: usize,
) -> Position {
    Position {
        y: offset.y.saturating_add(page_advance(at.y, lines.len(), height) as usize),
        ..offset
    }
}

/// A page down does not scroll past the last line: with the cursor on a line
/// of the document, a viewport that starts at or above the cursor still does
/// so afterwards, and the cursor is still on a line of the document.
pub proof fn lemma_page_down_stays_in_document(
    offset: Position,
    at: Position,
    lines: Seq<Seq<char>>,
    height: usize,
)
    requires
        offset.y <= at.y < lines.len() <= usize::MAX,
    ensures
        viewport_paged_down(offset, at, lines, height).y <= moved_down(at, lines, height).y,
        moved_down(at, lines, height).y < lines.len(),
{
}

/// Whether `pos` is a position a cursor in `mode` may rest at: on an existing
/// line (or on line 0 of an empty document) and within the columns the mode
/// allows. In command mode every position is.
pub open spec fn is_valid(pos: Position, lines: Seq<Seq<char>>, mode: Mode) -> bool {
    mode == Mode::Command || (pos.y <= last_index(lines.len()) && pos.x <= max_column(
        mode,
        width_at(lines, pos.y as int),
    ))
}

/// Clamping yields a valid position, and leaves a valid position alone.
pub proof fn lemma_clamped_is_valid(pos: Position, lines: Seq<Seq<char>>, mode: Mode)
    ensures
        is_valid(clamped(pos, lines, mode), lines, mode),
        is_valid(pos, lines, mode) && lines.len() > 0 ==> clamped(pos, lines, mode) == pos,
{
}

/// Clamping twice is the same as clamping once.
pub proof fn lemma_clamp_idempotent(pos: Position, lines: Seq<Seq<char>>, mode: Mode)
    ensures
        clamped(clamped(pos, lines, mode), lines, mode) == clamped(pos, lines, mode),
{
}

/// On a document without lines nothing is addressed: every line has width
/// zero, clamping and moving down lead to line 0, and the other movements
/// leave the position as it is.
pub proof fn lemma_empty_document(pos: Position, mode: Mode, flag: bool, other: bool, number: usize)
    ensures
        ({
            let lines = Seq::<Seq<char>>::empty();
            &&& width_at(lines, pos.y as int) == 0
            &&& mode != Mode::Command ==> clamped(pos, lines, mode) == (Position { x: 0, y: 0 })
            &&& at_line_end(pos, lines, flag) == pos
            &&& moved_down(pos, lines, number) == (Position { y: 0, ..pos })
            &&& moved_left(pos, lines, flag) == pos
            &&& moved_right(pos, lines, flag, other) == pos
        }),
{
}

/// Brings `at` back to a valid position for a cursor in `mode`. To be called
/// after every change to the document.
pub fn update_cursor(at: &mut Position, doc: &Document, mode: &Mode)
    ensures
        *final(at) == clamped(*old(at), doc@.lines, *mode),
{
    let doc_len = doc.len();
    match mode {
        Mode::Command => (),
        _ => {
            if at.y >= doc_len {
                at.y = doc_len.saturating_sub(1);
                let width = match doc.row_len(at.y) {
                    Some(width) => width,
                    None => 0,
                };
                at.x = match mode {
                    Mode::Visual => width,
                    _ => width.saturating_sub(1),
                };
            } else {
                let width = match doc.row_len(at.y) {
                    Some(width) => width,
                    None => 0,
                };
                let max = match mode {
                    Mode::Normal => width.saturating_sub(1),
                    _ => width,
                };
                if at.x > max {
                    at.x = max;
                }
            }
        },
    }
}

/// Moves `at` to the end of its line: onto the last cluster, or one past it
/// when `eol` is set. Does nothing when the line does not exist.
pub fn move_cursor_eol(at: &mut Position, doc: &Document, eol: bool)
    ensures
        *final(at) == at_line_end(*old(at), doc@.lines, eol),
{
    match doc.row_len(at.y) {
        Some(len) => {
            if eol {
                at.x = len;
            } else {
                at.x = len.saturating_sub(1);
            }
        },
        None => (),
    }
}

/// Moves `at` to the start of its line.
pub fn move_cursor_bol(at: &mut Position)
    ensures
        *final(at) == (Position { x: 0, ..*old(at) }),
{
    at.x = 0;
}

/// Moves `at` up by `number` lines, stopping at the first line.
pub fn move_cursor_up_n(at: &mut Position, number: usize)
    ensures
        *final(at) == moved_up(*old(at), number),
{
    at.y = at.y.saturating_sub(number);
}

/// Moves `at` up by one line, stopping at the first line.
pub fn move_cursor_up(at: &mut Position)
    ensures
        *final(at) == moved_up(*old(at), 1),
{
    at.y = at.y.saturating_sub(1);
}

/// Moves `at` down by `number` lines, stopping at the last line.
pub fn move_cursor_down_n(at: &mut Position, doc: &Document, number: usize)
    ensures
        *final(at) == moved_down(*old(at), doc@.lines, number),
{
    let len = doc.len();
    if at.y.saturating_add(number) < len {
        at.y = at.y.saturating_add(number);
    } else {
        at.y = len.saturating_sub(1);
    }
}

/// Moves `at` down by one line, stopping at the last line.
pub fn move_cursor_down(at: &mut Position, doc: &Document)
    ensures
        *final(at) == moved_down(*old(at), doc@.lines, 1),
{
    move_cursor_down_n(at, doc, 1);
}

/// Moves `at` one column to the left; with `wrap`, from the start of a line
/// to the end of the previous one.
pub fn move_cursor_left(at: &mut Position, doc: &Document, wrap: bool)
    ensures
        *final(at) == moved_left(*old(at), doc@.lines, wrap),
{
    match doc.row_len(at.y) {
        Some(width) => {
            if at.x == 0 && at.y > 0 && wrap {
                at.y = at.y - 1;
                at.x = match doc.row_len(at.y) {
                    Some(above) => above,
                    None => 0,
                };
            } else if at.x > width && width > 0 {
                at.x = width - 1;
            } else {
                at.x = at.x.saturating_sub(1);
            }
        },
        None => (),
    }
}

/// Moves `at` to the left `number` times.
pub fn move_cursor_left_n(at: &mut Position, doc: &Document, wrap: bool, number: usize)
    ensures
        *final(at) == moved_left_n(*old(at), doc@.lines, wrap, number as nat),
{
    let mut done: usize = 0;
    while done < number
        invariant
            done <= number,
            *at == moved_left_n(*old(at), doc@.lines, wrap, done as nat),
        decreases number - done,
    {
        move_cursor_left(at, doc, wrap);
        done = done + 1;
    }
}

/// Moves `at` one column to the right. With `eol` it may come to rest one
/// past the last cluster; with `wrap` it moves on from there to the start of
/// the next line.
pub fn move_cursor_right(at: &mut Position, doc: &Document, eol: bool, wrap: bool)
    ensures
        *final(at) == moved_right(*old(at), doc@.lines, eol, wrap),
{
    match doc.row_len(at.y) {
        Some(width) => {
            if width > 0 && at.x < width - 1 {
                at.x = at.x + 1;
            } else if width > 0 && at.x == width - 1 && eol {
                at.x = at.x + 1;
            } else if at.x == width && at.y < doc.len().saturating_sub(1) && wrap {
                at.x = 0;
                at.y = at.y + 1;
            }
        },
        None => (),
    }
}

/// Moves `at` to the right `number` times.
pub fn move_cursor_right_n(
    at: &mut Position,
    doc: &Document,
    eol: bool,
    wrap: bool,
    number: usize,
)
    ensures
        *final(at) == moved_right_n(*old(at), doc@.lines, eol, wrap, number as nat),
{
    let mut done: usize = 0;
    while done < number
        invariant
            done <= number,
            *at == moved_right_n(*old(at), doc@.lines, eol, wrap, done as nat),
        decreases number - done,
    {
        move_cursor_right(at, doc, eol, wrap);
        done = done + 1;
    }
}

/// Moves to the start of the next word. Word motions are not supported: the
/// position stays as it is.
pub fn move_next_word(at: &mut Position, _doc: &Document)
    ensures
        *final(at) == *old(at),
{
}

/// Moves to the start of the previous word. Word motions are not supported:
/// the position stays as it is.
pub fn move_last_word(at: &mut Position, _doc: &Document)
    ensures
        *final(at) == *old(at),
{
}

/// Moves the cursor `at` and the viewport `offset` up by a page of
/// `terminal_height` lines, each stopping at the first line.
pub fn move_page_up(at: &mut Position, offset: &mut Position, terminal_height: usize)
    ensures
        *final(at) == moved_up(*old(at), terminal_height),
        *final(offset) == moved_up(*old(offset), terminal_height),
{
    at.y = at.y.saturating_sub(terminal_height);
    offset.y = offset.y.saturating_sub(terminal_height);
}

/// Moves the cursor `at` down by a page of `terminal_height` lines, stopping
/// at the last line, and advances the viewport `offset` by as many lines as
/// the cursor had left to go, at most a page.
pub fn move_page_down(
    at: &mut Position,
    offset: &mut Position,
    doc: &Document,
    terminal_height: usize,
)
    ensures
        *final(at) == moved_down(*old(at), doc@.lines, terminal_height),
        *final(offset) == viewport_paged_down(
            *old(offset),
            *old(at),
            doc@.lines,
            terminal_height,
        ),
{
    let height = doc.len();
    if at.y.saturating_add(terminal_height) < height {
        offset.y = offset.y.saturating_add(terminal_height);
        at.y = at.y.saturating_add(terminal_height);
    } else {
        offset.y = offset.y.saturating_add(height.saturating_sub(at.y).saturating_sub(1));
        at.y = height.saturating_sub(1);
    }
}

} // verus!
