//! Cursor positions, editing modes, selections, and the editing session that
//! ties them to a document.
//!
//! An [`Editor`] is a state machine: it is handed one key press at a time and
//! tells its caller what to do next. It reads no input and writes no output
//! of its own.

use crate::commands::cursor_cmds::{
    clamped, is_valid, lemma_clamped_is_valid, width_at, move_cursor_bol, move_cursor_down, move_cursor_left, move_cursor_right,
    move_cursor_up, move_page_down, move_page_up, moved_down, moved_left, moved_right, moved_up,
    update_cursor, viewport_paged_down,
};
use crate::commands::edit_cmds;
use crate::commands::edit_cmds::{after_line_deleted, line_break_after};
use crate::commands::visual_cmds::{enter_visual_mode, selection_end, update_selection};
use crate::document::{Document, DocumentView};
use crate::lines::split_lines;
use crate::row::Row;
use crate::segmentation::grapheme_len;
use core::cmp::Ordering;
use vstd::prelude::*;
use vstd::std_specs::cmp::PartialOrdSpecImpl;
use vstd::string::StringExecFns;

verus! {

/// A location in a buffer: `y` selects a line, `x` a grapheme cluster within it.
///
/// Positions are ordered row-major: first by `y`, then by `x`. The fields
/// are declared in that order, which is the order the derived comparison
/// goes by.
#[derive(Debug, Clone, Copy, PartialEq, Eq, Structural, Ord)]
pub struct Position {
    pub y: usize,
    pub x: usize,
}

impl Position {
    /// Row-major "strictly before".
    pub open spec fn spec_before(self, other: Position) -> bool {
        self.y < other.y || (self.y == other.y && self.x < other.x)
    }

    /// Row-major "before or equal".
    pub open spec fn spec_at_or_before(self, other: Position) -> bool {
        self.spec_before(other) || self == other
    }
}

impl Default for Position {
    fn default() -> (r: Position)
        ensures
            r == (Position { x: 0, y: 0 }),
    {
        Position { x: 0, y: 0 }
    }
}

impl PartialOrd for Position {
    fn partial_cmp(&self, other: &Position) -> (r: Option<Ordering>) {
        if self.y < other.y {
            Some(Ordering::Less)
        } else if self.y > other.y {
            Some(Ordering::Greater)
        } else if self.x < other.x {
            Some(Ordering::Less)
        } else if self.x > other.x {
            Some(Ordering::Greater)
        } else {
            Some(Ordering::Equal)
        }
    }
}

impl PartialOrdSpecImpl for Position {
    open spec fn obeys_partial_cmp_spec() -> bool {
        true
    }

    open spec fn partial_cmp_spec(&self, other: &Position) -> Option<Ordering> {
        if self.spec_before(*other) {
            Some(Ordering::Less)
        } else if other.spec_before(*self) {
            Some(Ordering::Greater)
        } else {
            Some(Ordering::Equal)
        }
    }
}

/// The editing modes.
#[derive(Debug, Clone, Copy, PartialEq, Eq, Structural)]
pub enum Mode {
    /// Commands act on the text under a block cursor.
    Normal,
    /// Typed characters are inserted at the caret.
    Insert,
    /// Cursor movement extends a selection.
    Visual,
    /// A prompt is open; the cursor addresses the prompt, not the buffer.
    Command,
}

/// A selected range of text, given by the position where the selection began
/// and the position it currently extends to. The two are in no particular
/// order.
#[derive(Debug, Clone, Copy, PartialEq, Eq, Structural)]
pub struct SelectedText {
    pub start: Position,
    pub end: Position,
}

impl Default for SelectedText {
    fn default() -> (r: SelectedText)
        ensures
            r == (SelectedText { start: Position { x: 0, y: 0 }, end: Position { x: 0, y: 0 } }),
    {
        SelectedText { start: Position { x: 0, y: 0 }, end: Position { x: 0, y: 0 } }
    }
}

impl SelectedText {
    /// The two ends in row-major order.
    pub open spec fn spec_normalize(self) -> (Position, Position) {
        if self.start.spec_at_or_before(self.end) {
            (self.start, self.end)
        } else {
            (self.end, self.start)
        }
    }

    /// The columns of line `y` that the selection covers, first and last
    /// included, or `None` when it does not reach that line. A selection that
    /// runs on to a later line covers every column from its first: the last
    /// column is then `usize::MAX`.
    pub open spec fn spec_columns_on(self, y: usize) -> Option<(usize, usize)> {
        let (low, high) = self.spec_normalize();
        if y < low.y || y > high.y {
            None
        } else {
            Some(
                (
                    if y == low.y {
                        low.x
                    } else {
                        0
                    },
                    if y == high.y {
                        high.x
                    } else {
                        usize::MAX
                    },
                ),
            )
        }
    }

    /// A selection of the single position `at`.
    pub fn begin(at: Position) -> (r: SelectedText)
        ensures
            r == (SelectedText { start: at, end: at }),
    {
        SelectedText { start: at, end: at }
    }

    /// The two ends of the selection, the one that comes first in row-major
    /// order first.
    pub fn normalize(&self) -> (ends: (Position, Position))
        ensures
            ends == self.spec_normalize(),
            ends.0.spec_at_or_before(ends.1),
    {
        if self.start <= self.end {
            (self.start, self.end)
        } else {
            (self.end, self.start)
        }
    }

    /// The columns of line `y` that the selection covers, first and last
    /// included, or `None` when it does not reach that line.
    pub fn columns_on(&self, y: usize) -> (columns: Option<(usize, usize)>)
        ensures
            columns == self.spec_columns_on(y),
    {
        let (low, high) = self.normalize();
        if y < low.y || y > high.y {
            None
        } else {
            let first = if y == low.y {
                low.x
            } else {
                0
            };
            let last = if y == high.y {
                high.x
            } else {
                usize::MAX
            };
            Some((first, last))
        }
    }
}

/// A key press.
#[derive(Debug, Clone, Copy, PartialEq, Eq, Structural)]
pub enum Key {
    /// A character key; the return key is `Char('\n')`.
    Char(char),
    /// A character key pressed together with the control key.
    Ctrl(char),
    Left,
    Right,
    Up,
    Down,
    Backspace,
    Delete,
    /// Any key the editor has no use for.
    Other,
}

/// The size of the text area, in terminal cells.
#[derive(Debug, Clone, Copy, PartialEq, Eq, Structural)]
pub struct Size {
    pub width: u16,
    pub height: u16,
}

/// The first key of a two-key command in normal mode.
#[derive(Debug, Clone, Copy, PartialEq, Eq, Structural)]
pub enum Prefix {
    /// `d`: a second `d` deletes the line.
    Delete,
    /// The space bar: `s` saves, `w` saves under a new name.
    Leader,
}

/// What the editor asks of its caller after a key press.
#[derive(Debug, Clone, Copy, PartialEq, Eq, Structural)]
pub enum Action {
    /// Nothing; read the next key.
    Continue,
    /// Write the document out to [`Editor::save_target`], then report the
    /// outcome with [`Editor::finish_save`].
    Save,
}

/// What an [`Editor`] holds.
pub struct EditorView {
    pub should_quit: bool,
    pub cursor_position: Position,
    pub offset: Position,
    pub document: DocumentView,
    pub hl_text: SelectedText,
    pub status_message: Seq<char>,
    pub mode: Mode,
    /// The mode to return to when the prompt closes.
    pub last_mode: Mode,
    pub pending: Option<Prefix>,
    /// What has been typed at the prompt.
    pub prompt: Seq<char>,
    /// A name given at the prompt to save under, when the document keeps the
    /// name it has.
    pub save_as: Option<Seq<char>>,
    pub size: Size,
}

/// Whether `c` is a control code: U+0000 to U+001F or U+007F to U+009F.
pub open spec fn is_control_code(c: char) -> bool {
    c as u32 <= 0x1f || 0x7f <= c as u32 <= 0x9f
}

/// One coordinate of the viewport after scrolling. A cursor `at` before the
/// `offset` becomes the first cell shown, one beyond the `extent` cells that
/// start at `offset` becomes the last cell shown, and otherwise the offset
/// stays.
pub open spec fn scrolled_axis(offset: usize, at: usize, extent: usize) -> usize {
    if at < offset {
        at
    } else if at >= offset.saturating_add(extent) {
        at.saturating_sub(extent).saturating_add(1)
    } else {
        offset
    }
}

/// After scrolling, `at` lies within the `extent` cells that start at the
/// offset, provided there is at least one cell. An offset that already shows
/// `at` is left alone, as long as the cells it shows can all be numbered.
pub proof fn lemma_scrolled_axis_shows(offset: usize, at: usize, extent: usize)
    requires
        extent > 0,
    ensures
        scrolled_axis(offset, at, extent) <= at < scrolled_axis(offset, at, extent) + extent,
        offset <= at < offset + extent <= usize::MAX ==> scrolled_axis(offset, at, extent)
            == offset,
{
}

/// The viewport `offset` moved as little as needed to show the cursor `at`.
pub open spec fn scrolled(offset: Position, at: Position, size: Size) -> Position {
    Position {
        x: scrolled_axis(offset.x, at.x, size.width as usize),
        y: scrolled_axis(offset.y, at.y, size.height as usize),
    }
}

/// The view of an optional string.
pub open spec fn optional_text(text: Option<String>) -> Option<Seq<char>> {
    match text {
        Some(text) => Some(text@),
        None => None,
    }
}

impl EditorView {
    /// The state a session starts in, over `document` and showing `status`.
    pub open spec fn initial(document: DocumentView, status: Seq<char>, size: Size) -> EditorView {
        EditorView {
            should_quit: false,
            cursor_position: Position { x: 0, y: 0 },
            offset: Position { x: 0, y: 0 },
            document,
            hl_text: SelectedText { start: Position { x: 0, y: 0 }, end: Position { x: 0, y: 0 } },
            status_message: status,
            mode: Mode::Normal,
            last_mode: Mode::Normal,
            pending: None,
            prompt: Seq::empty(),
            save_as: None,
            size,
        }
    }

    /// This state with the viewport scrolled to show the cursor.
    pub open spec fn scroll(self) -> EditorView {
        EditorView { offset: scrolled(self.offset, self.cursor_position, self.size), ..self }
    }

    /// The terminal cell, relative to the text area, where the cursor is
    /// shown. In the document it is the cell of the cursor, or of the end of
    /// its line when the cursor lies beyond it, as seen through the viewport.
    /// At the prompt it is the cell after the status text, one row below the
    /// text area.
    pub open spec fn cursor_on_screen(self) -> Position {
        match self.mode {
            Mode::Command => Position {
                x: grapheme_len(self.status_message) as usize,
                y: (self.size.height + 1) as usize,
            },
            _ => {
                let width = width_at(self.document.lines, self.cursor_position.y as int);
                let column = if self.cursor_position.x > width {
                    width as usize
                } else {
                    self.cursor_position.x
                };
                Position {
                    x: column.saturating_sub(self.offset.x),
                    y: self.cursor_position.y.saturating_sub(self.offset.y),
                }
            },
        }
    }

    /// This state with the cursor clamped to a valid position for the mode.
    pub open spec fn clamp(self) -> EditorView {
        EditorView {
            cursor_position: clamped(self.cursor_position, self.document.lines, self.mode),
            ..self
        }
    }

    /// The status line while the prompt is open.
    pub open spec fn prompt_line(self) -> Seq<char> {
        "Save as: "@ + self.prompt
    }

    /// This state after a request to save, and what the caller is to do. An
    /// unnamed document, or a request to save under a new name, opens the
    /// prompt; otherwise the document is to be written out.
    pub open spec fn begin_save(self, save_as: bool) -> (EditorView, Action) {
        if self.document.file_name is None || save_as {
            let next = EditorView {
                last_mode: self.mode,
                mode: Mode::Command,
                prompt: Seq::empty(),
                save_as: None,
                ..self
            };
            (EditorView { status_message: next.prompt_line(), ..next }, Action::Continue)
        } else {
            (EditorView { save_as: None, ..self }, Action::Save)
        }
    }

    /// This state after the prompt closes, and what the caller is to do. The
    /// mode that was active before the prompt opened is restored. An empty
    /// answer aborts the save. Otherwise the answer names an unnamed
    /// document, or is where a named one is to be written this once.
    pub open spec fn finish_prompt(self) -> (EditorView, Action) {
        let back = EditorView { mode: self.last_mode, prompt: Seq::empty(), ..self };
        if self.prompt.len() == 0 {
            (EditorView { status_message: "Save aborted"@, ..back }, Action::Continue)
        } else if self.document.file_name is None {
            (
                EditorView {
                    document: DocumentView { file_name: Some(self.prompt), ..self.document },
                    status_message: Seq::empty(),
                    ..back
                },
                Action::Save,
            )
        } else {
            (
                EditorView { save_as: Some(self.prompt), status_message: Seq::empty(), ..back },
                Action::Save,
            )
        }
    }

    /// This state after the caller reports whether the document was written.
    pub open spec fn finish_save(self, written: bool) -> EditorView {
        if written {
            EditorView {
                document: DocumentView { dirty: false, ..self.document },
                status_message: match self.document.file_name {
                    Some(name) => name + " written"@,
                    None => " written"@,
                },
                save_as: None,
                ..self
            }
        } else {
            EditorView { status_message: "Error writing file"@, save_as: None, ..self }
        }
    }
}

impl EditorView {
    /// This state with the cursor moved one column to the left.
    pub open spec fn left(self) -> EditorView {
        EditorView {
            cursor_position: moved_left(self.cursor_position, self.document.lines, false),
            ..self
        }
    }

    /// This state with the cursor moved one column to the right; with `eol`
    /// it may come to rest one past the end of the line.
    pub open spec fn right(self, eol: bool) -> EditorView {
        EditorView {
            cursor_position: moved_right(self.cursor_position, self.document.lines, eol, false),
            ..self
        }
    }

    /// This state with the cursor moved up one line.
    pub open spec fn up(self) -> EditorView {
        EditorView { cursor_position: moved_up(self.cursor_position, 1), ..self }
    }

    /// This state with the cursor moved down one line.
    pub open spec fn down(self) -> EditorView {
        EditorView {
            cursor_position: moved_down(self.cursor_position, self.document.lines, 1),
            ..self
        }
    }

    /// This state with cursor and viewport moved up one page.
    pub open spec fn page_up(self) -> EditorView {
        EditorView {
            cursor_position: moved_up(self.cursor_position, self.size.height as usize),
            offset: moved_up(self.offset, self.size.height as usize),
            ..self
        }
    }

    /// This state with cursor and viewport moved down one page.
    pub open spec fn page_down(self) -> EditorView {
        EditorView {
            cursor_position: moved_down(
                self.cursor_position,
                self.document.lines,
                self.size.height as usize,
            ),
            offset: viewport_paged_down(
                self.offset,
                self.cursor_position,
                self.document.lines,
                self.size.height as usize,
            ),
            ..self
        }
    }

    /// This state with the selection extended to the cursor.
    pub open spec fn select(self) -> EditorView {
        EditorView {
            hl_text: SelectedText {
                end: selection_end(self.cursor_position, self.document.lines),
                ..self.hl_text
            },
            ..self
        }
    }

    /// This state with the document replaced by `document`.
    pub open spec fn edit(self, document: DocumentView) -> EditorView {
        EditorView { document, ..self }
    }

    /// This state in mode `mode`.
    pub open spec fn switch(self, mode: Mode) -> EditorView {
        EditorView { mode, ..self }
    }

    /// This state after a command key in normal mode.
    pub open spec fn normal_command(self, key: Key) -> EditorView {
        let at = self.cursor_position;
        let lines = self.document.lines;
        match key {
            Key::Ctrl('q') => EditorView { should_quit: true, ..self },
            Key::Char('h') | Key::Left | Key::Backspace => self.left(),
            Key::Char('j') | Key::Down => self.down(),
            Key::Char('k') | Key::Up => self.up(),
            Key::Char('l') | Key::Right => self.right(false),
            Key::Ctrl('d') => self.page_up(),
            Key::Ctrl('u') => self.page_down(),
            Key::Char('x') => self.edit(self.document.delete(at)).clamp(),
            Key::Char('d') => EditorView { pending: Some(Prefix::Delete), ..self },
            Key::Char('D') => self.edit(self.document.delete_until_eol(at)).left().clamp(),
            Key::Char('J') => self.edit(self.document.delete_to_eol(at)).clamp(),
            Key::Char('o') => self.edit(
                self.document.insert_newline(line_break_after(lines, at.y)),
            ).down().switch(Mode::Insert).clamp(),
            Key::Char('O') => self.edit(
                self.document.insert_newline(line_break_after(lines, at.y.saturating_sub(1))),
            ).up().switch(Mode::Insert).clamp(),
            Key::Char('i') => self.switch(Mode::Insert),
            Key::Char('v') => EditorView {
                hl_text: SelectedText { start: at, end: at },
                mode: Mode::Visual,
                status_message: "-- Visual Mode --"@,
                ..self
            },
            Key::Char('a') => self.right(true).switch(Mode::Insert),
            Key::Char(' ') => EditorView { pending: Some(Prefix::Leader), ..self },
            _ => self,
        }
    }

    /// This state after a key in normal mode, and what the caller is to do.
    /// After `d` or the space bar the key completes a two-key command, or
    /// cancels it.
    pub open spec fn normal_key(self, key: Key) -> (EditorView, Action) {
        let idle = EditorView { pending: None, ..self };
        match self.pending {
            Some(Prefix::Delete) => if key == Key::Char('d') {
                (
                    EditorView {
                        cursor_position: after_line_deleted(
                            self.cursor_position,
                            self.document.lines,
                        ),
                        ..idle.edit(self.document.delete_line(self.cursor_position.y as int))
                    }.clamp(),
                    Action::Continue,
                )
            } else {
                (idle, Action::Continue)
            },
            Some(Prefix::Leader) => match key {
                Key::Char('s') => idle.begin_save(false),
                Key::Char('w') => idle.begin_save(true),
                _ => (idle, Action::Continue),
            },
            None => (self.normal_command(key), Action::Continue),
        }
    }

    /// This state after a key in insert mode, and what the caller is to do.
    pub open spec fn insert_key(self, key: Key) -> (EditorView, Action) {
        let at = self.cursor_position;
        match key {
            Key::Ctrl('q') => (EditorView { should_quit: true, ..self }, Action::Continue),
            Key::Ctrl('c') => (self.switch(Mode::Normal), Action::Continue),
            Key::Ctrl('s') => self.begin_save(false),
            Key::Ctrl('w') => self.begin_save(true),
            Key::Delete => (self.edit(self.document.delete(at)).clamp(), Action::Continue),
            Key::Backspace => {
                let back = moved_left(at, self.document.lines, true);
                (
                    EditorView { cursor_position: back, ..self.edit(self.document.delete(back)) }
                    .clamp(),
                    Action::Continue,
                )
            },
            Key::Char('\n') => (
                EditorView {
                    cursor_position: Position { x: 0, ..at },
                    ..self.edit(self.document.insert_newline(at))
                }.down().clamp(),
                Action::Continue,
            ),
            Key::Char(c) => (
                self.edit(self.document.insert(at, c)).right(true).clamp(),
                Action::Continue,
            ),
            Key::Left => (self.left(), Action::Continue),
            Key::Down => (self.down(), Action::Continue),
            Key::Up => (self.up(), Action::Continue),
            Key::Right => (self.right(true), Action::Continue),
            Key::Ctrl('d') => (self.page_up(), Action::Continue),
            Key::Ctrl('u') => (self.page_down(), Action::Continue),
            _ => (self, Action::Continue),
        }
    }

    /// This state after a key in visual mode. Every movement extends the
    /// selection to where the cursor went. `x` deletes the selection, its two
    /// ends taken in row-major order, and leaves the cursor where it began.
    pub open spec fn visual_key(self, key: Key) -> EditorView {
        match key {
            Key::Ctrl('q') => EditorView { should_quit: true, ..self },
            Key::Char('v') | Key::Ctrl('c') => self.switch(Mode::Normal),
            Key::Char('x') => {
                let (low, high) = self.hl_text.spec_normalize();
                EditorView {
                    cursor_position: low,
                    mode: Mode::Normal,
                    status_message: Seq::empty(),
                    ..self.edit(self.document.delete_slice(low, high))
                }.clamp()
            },
            Key::Char('h') | Key::Left | Key::Backspace => self.left().select(),
            Key::Char('j') | Key::Down => self.down().select(),
            Key::Char('k') | Key::Up => self.up().select(),
            Key::Char('l') | Key::Right => self.right(true).select(),
            Key::Ctrl('d') => self.page_up().select(),
            Key::Ctrl('u') => self.page_down().select(),
            _ => self,
        }
    }

    /// This state after a key at the prompt, and what the caller is to do.
    /// The return key closes the prompt with what was typed, Ctrl-Q with
    /// nothing. Backspace takes the last character back. Any character other
    /// than a control code is added.
    pub open spec fn prompt_key(self, key: Key) -> (EditorView, Action) {
        match key {
            Key::Char('\n') => self.finish_prompt(),
            Key::Ctrl('q') => EditorView { prompt: Seq::empty(), ..self }.finish_prompt(),
            _ => {
                let prompt = match key {
                    Key::Backspace => if self.prompt.len() > 0 {
                        self.prompt.drop_last()
                    } else {
                        self.prompt
                    },
                    Key::Char(c) => if is_control_code(c) {
                        self.prompt
                    } else {
                        self.prompt.push(c)
                    },
                    _ => self.prompt,
                };
                let next = EditorView { prompt, ..self };
                (EditorView { status_message: next.prompt_line(), ..next }, Action::Continue)
            },
        }
    }

    /// This state after the key press `key`, and what the caller is to do:
    /// the key is handled as the mode has it, then the viewport is scrolled
    /// to show the cursor.
    pub open spec fn process_keypress(self, key: Key) -> (EditorView, Action) {
        let (next, action) = match self.mode {
            Mode::Normal => self.normal_key(key),
            Mode::Insert => self.insert_key(key),
            Mode::Visual => (self.visual_key(key), Action::Continue),
            Mode::Command => self.prompt_key(key),
        };
        (next.scroll(), action)
    }
}

/// Whether an editor in mode `from`, which came to it from `last`, may pass
/// to mode `to`. Insert and visual mode are entered from normal mode and left
/// for it. The prompt opens from normal or insert mode and closes to the mode
/// it was opened from.
pub open spec fn may_pass(from: Mode, last: Mode, to: Mode) -> bool {
    match (from, to) {
        (Mode::Normal, Mode::Insert) => true,
        (Mode::Normal, Mode::Visual) => true,
        (Mode::Insert, Mode::Normal) => true,
        (Mode::Visual, Mode::Normal) => true,
        (Mode::Normal, Mode::Command) => true,
        (Mode::Insert, Mode::Command) => true,
        (Mode::Command, _) => to == last,
        _ => false,
    }
}

/// A key press leaves the mode as it is or passes to a mode that may follow
/// it. Opening the prompt records the mode it was opened from, and no key at
/// the prompt changes that record.
pub proof fn lemma_mode_transitions(state: EditorView, key: Key)
    ensures
        ({
            let next = state.process_keypress(key).0;
            &&& next.mode == state.mode || may_pass(state.mode, state.last_mode, next.mode)
            &&& state.mode != Mode::Command && next.mode == Mode::Command ==> next.last_mode
                == state.mode
            &&& state.mode == Mode::Command ==> next.last_mode == state.last_mode
        }),
{
}

/// Clamping leaves the cursor at a position that is valid for the mode.
pub proof fn lemma_clamp_is_valid(state: EditorView)
    ensures
        is_valid(
            state.clamp().cursor_position,
            state.clamp().document.lines,
            state.clamp().mode,
        ),
{
    lemma_clamped_is_valid(state.cursor_position, state.document.lines, state.mode);
}

/// A key press in normal mode that changes the text leaves the cursor valid.
proof fn lemma_normal_key_leaves_cursor_valid(state: EditorView, key: Key)
    ensures
        ({
            let next = state.normal_key(key).0;
            next.document.lines != state.document.lines ==> is_valid(
                next.cursor_position,
                next.document.lines,
                next.mode,
            )
        }),
{
    let at = state.cursor_position;
    let lines = state.document.lines;
    let idle = EditorView { pending: None, ..state };
    match state.pending {
        Some(Prefix::Delete) => {
            if key == Key::Char('d') {
                lemma_clamp_is_valid(
                    EditorView {
                        cursor_position: after_line_deleted(at, lines),
                        ..idle.edit(state.document.delete_line(at.y as int))
                    },
                );
            }
        },
        Some(Prefix::Leader) => {},
        None => {
            match key {
                Key::Char('x') => lemma_clamp_is_valid(state.edit(state.document.delete(at))),
                Key::Char('D') => lemma_clamp_is_valid(
                    state.edit(state.document.delete_until_eol(at)).left(),
                ),
                Key::Char('J') => lemma_clamp_is_valid(state.edit(state.document.delete_to_eol(at))),
                Key::Char('o') => lemma_clamp_is_valid(
                    state.edit(
                        state.document.insert_newline(line_break_after(lines, at.y)),
                    ).down().switch(Mode::Insert),
                ),
                Key::Char('O') => lemma_clamp_is_valid(
                    state.edit(
                        state.document.insert_newline(
                            line_break_after(lines, at.y.saturating_sub(1)),
                        ),
                    ).up().switch(Mode::Insert),
                ),
                _ => {},
            }
        },
    }
}

/// A key press in insert mode that changes the text leaves the cursor valid.
proof fn lemma_insert_key_leaves_cursor_valid(state: EditorView, key: Key)
    ensures
        ({
            let next = state.insert_key(key).0;
            next.document.lines != state.document.lines ==> is_valid(
                next.cursor_position,
                next.document.lines,
                next.mode,
            )
        }),
{
    let at = state.cursor_position;
    match key {
        Key::Delete => lemma_clamp_is_valid(state.edit(state.document.delete(at))),
        Key::Backspace => {
            let back = moved_left(at, state.document.lines, true);
            lemma_clamp_is_valid(
                EditorView { cursor_position: back, ..state.edit(state.document.delete(back)) },
            );
        },
        Key::Char('\n') => lemma_clamp_is_valid(
            EditorView {
                cursor_position: Position { x: 0, ..at },
                ..state.edit(state.document.insert_newline(at))
            }.down(),
        ),
        Key::Char(c) => lemma_clamp_is_valid(state.edit(state.document.insert(at, c)).right(true)),
        _ => {},
    }
}

/// A key press in visual mode that changes the text leaves the cursor valid.
proof fn lemma_visual_key_leaves_cursor_valid(state: EditorView, key: Key)
    ensures
        ({
            let next = state.visual_key(key);
            next.document.lines != state.document.lines ==> is_valid(
                next.cursor_position,
                next.document.lines,
                next.mode,
            )
        }),
{
    if key == Key::Char('x') {
        let (low, high) = state.hl_text.spec_normalize();
        lemma_clamp_is_valid(
            EditorView {
                cursor_position: low,
                mode: Mode::Normal,
                status_message: Seq::empty(),
                ..state.edit(state.document.delete_slice(low, high))
            },
        );
    }
}

/// A key press that changes the text leaves the cursor at a position that is
/// valid for the mode the editor is then in.
pub proof fn lemma_edits_leave_cursor_valid(state: EditorView, key: Key)
    ensures
        ({
            let next = state.process_keypress(key).0;
            next.document.lines != state.document.lines ==> is_valid(
                next.cursor_position,
                next.document.lines,
                next.mode,
            )
        }),
{
    match state.mode {
        Mode::Normal => lemma_normal_key_leaves_cursor_valid(state, key),
        Mode::Insert => lemma_insert_key_leaves_cursor_valid(state, key),
        Mode::Visual => lemma_visual_key_leaves_cursor_valid(state, key),
        Mode::Command => {},
    }
}

/// Whether `c` is a control code.
pub fn is_control(c: char) -> (control: bool)
    ensures
        control == is_control_code(c),
{
    let code = c as u32;
    code <= 0x1f || (0x7f <= code && code <= 0x9f)
}

/// An editing session: a document, the cursor and viewport over it, the mode,
/// the selection, and the status line.
#[derive(Debug)]
pub struct Editor {
    should_quit: bool,
    cursor_position: Position,
    offset: Position,
    document: Document,
    hl_text: SelectedText,
    status_message: String,
    mode: Mode,
    last_mode: Mode,
    pending: Option<Prefix>,
    prompt: String,
    save_as: Option<String>,
    size: Size,
}

impl View for Editor {
    type V = EditorView;

    closed spec fn view(&self) -> EditorView {
        EditorView {
            should_quit: self.should_quit,
            cursor_position: self.cursor_position,
            offset: self.offset,
            document: self.document@,
            hl_text: self.hl_text,
            status_message: self.status_message@,
            mode: self.mode,
            last_mode: self.last_mode,
            pending: self.pending,
            prompt: self.prompt@,
            save_as: optional_text(self.save_as),
            size: self.size,
        }
    }
}

impl Editor {
    /// A session over `document`, in normal mode with the cursor at the top
    /// left, showing `status`.
    pub fn new(document: Document, status: String, size: Size) -> (editor: Editor)
        ensures
            editor@ == EditorView::initial(document@, status@, size),
    {
        Editor {
            should_quit: false,
            cursor_position: Position { x: 0, y: 0 },
            offset: Position { x: 0, y: 0 },
            document,
            hl_text: SelectedText { start: Position { x: 0, y: 0 }, end: Position { x: 0, y: 0 } },
            status_message: status,
            mode: Mode::Normal,
            last_mode: Mode::Normal,
            pending: None,
            prompt: String::new(),
            save_as: None,
            size,
        }
    }

    /// The session to start with. Without a file name it is over an empty,
    /// unnamed document. With a file name and the contents read from that
    /// file it is over that document. With a file name whose file could not
    /// be read it is over an empty, unnamed document and says so.
    pub fn default(file_name: Option<&str>, contents: Option<&str>, size: Size) -> (editor: Editor)
        ensures
            editor@ == (match (file_name, contents) {
                (Some(name), Some(text)) => EditorView::initial(
                    DocumentView {
                        lines: split_lines(text@),
                        file_name: Some(name@),
                        dirty: false,
                    },
                    "HELP: Ctrl-Q = quit"@,
                    size,
                ),
                (Some(name), None) => EditorView::initial(
                    DocumentView { lines: Seq::empty(), file_name: None, dirty: false },
                    "Err: could not open file "@ + name@,
                    size,
                ),
                (None, _) => EditorView::initial(
                    DocumentView { lines: Seq::empty(), file_name: None, dirty: false },
                    "HELP: Ctrl-Q = quit"@,
                    size,
                ),
            }),
            editor@.document.single_lines(),
    {
        match file_name {
            Some(name) => match contents {
                Some(text) => Editor::new(
                    Document::open(name, text),
                    String::from_str("HELP: Ctrl-Q = quit"),
                    size,
                ),
                None => {
                    let mut status = String::from_str("Err: could not open file ");
                    status.append(name);
                    Editor::new(Document::default(), status, size)
                },
            },
            None => Editor::new(Document::default(), String::from_str("HELP: Ctrl-Q = quit"), size),
        }
    }

    /// Whether the session is over.
    pub fn should_quit(&self) -> (quit: bool)
        ensures
            quit == self@.should_quit,
    {
        self.should_quit
    }

    /// The cursor.
    pub fn cursor_position(&self) -> (at: Position)
        ensures
            at == self@.cursor_position,
    {
        self.cursor_position
    }

    /// The top left corner of the viewport.
    pub fn offset(&self) -> (offset: Position)
        ensures
            offset == self@.offset,
    {
        self.offset
    }

    /// The document.
    pub fn document(&self) -> (document: &Document)
        ensures
            document@ == self@.document,
    {
        &self.document
    }

    /// The selection. It is meaningful in visual mode.
    pub fn hl_text(&self) -> (selection: SelectedText)
        ensures
            selection == self@.hl_text,
    {
        self.hl_text
    }

    /// The text of the status line.
    pub fn status_message(&self) -> (text: &str)
        ensures
            text@ == self@.status_message,
    {
        self.status_message.as_str()
    }

    /// The mode.
    pub fn mode(&self) -> (mode: Mode)
        ensures
            mode == self@.mode,
    {
        self.mode
    }

    /// The terminal cell, relative to the text area, where the cursor is to
    /// be shown.
    pub fn cursor_on_screen(&self) -> (cell: Position)
        ensures
            cell == self@.cursor_on_screen(),
    {
        match self.mode {
            Mode::Command => {
                let text = Row::from(self.status_message.as_str());
                Position { x: text.len(), y: self.size.height as usize + 1 }
            },
            _ => {
                let Position { x, y } = self.cursor_position;
                let width = match self.document.row_len(y) {
                    Some(width) => width,
                    None => 0,
                };
                let column = if x > width {
                    width
                } else {
                    x
                };
                Position {
                    x: column.saturating_sub(self.offset.x),
                    y: y.saturating_sub(self.offset.y),
                }
            },
        }
    }

    /// Tells the editor the size of the text area.
    pub fn resize(&mut self, size: Size)
        ensures
            final(self)@ == (EditorView { size, ..old(self)@ }),
    {
        self.size = size;
    }

    /// Moves the viewport as little as needed to show the cursor.
    pub fn scroll(&mut self)
        ensures
            final(self)@ == old(self)@.scroll(),
    {
        let Position { x, y } = self.cursor_position;
        let width = self.size.width as usize;
        let height = self.size.height as usize;
        if y < self.offset.y {
            self.offset.y = y;
        } else if y >= self.offset.y.saturating_add(height) {
            self.offset.y = y.saturating_sub(height).saturating_add(1);
        }
        if x < self.offset.x {
            self.offset.x = x;
        } else if x >= self.offset.x.saturating_add(width) {
            self.offset.x = x.saturating_sub(width).saturating_add(1);
        }
    }

    /// Where the document is to be written: to the name given at the prompt
    /// for this save, else to the name the document is bound to.
    pub fn save_target(&self) -> (target: Option<String>)
        ensures
            optional_text(target) == (match self@.save_as {
                Some(name) => Some(name),
                None => self@.document.file_name,
            }),
    {
        let chosen = match &self.save_as {
            Some(name) => Some(name.clone()),
            None => None,
        };
        self.document.save_target(chosen)
    }

    /// Takes note of whether the document was written out. A written
    /// document is no longer dirty. The status line reports the outcome.
    pub fn finish_save(&mut self, written: bool)
        ensures
            final(self)@ == old(self)@.finish_save(written),
    {
        if written {
            self.document.mark_saved();
            let mut status = match self.document.name() {
                Some(name) => name.clone(),
                None => String::new(),
            };
            status.append(" written");
            self.status_message = status;
        } else {
            self.status_message = String::from_str("Error writing file");
        }
        self.save_as = None;
    }

    /// Handles a request to save: opens the prompt for a name when the
    /// document has none or `save_as` is set, and asks for the document to be
    /// written out otherwise.
    fn begin_save(&mut self, save_as: bool) -> (action: Action)
        ensures
            (final(self)@, action) == old(self)@.begin_save(save_as),
    {
        self.save_as = None;
        if self.document.name().is_none() || save_as {
            self.last_mode = self.mode;
            self.mode = Mode::Command;
            self.prompt = String::new();
            self.status_message = String::from_str("Save as: ");
            Action::Continue
        } else {
            Action::Save
        }
    }

    /// Closes the prompt.
    fn finish_prompt(&mut self) -> (action: Action)
        ensures
            (final(self)@, action) == old(self)@.finish_prompt(),
    {
        self.mode = self.last_mode;
        let answer = self.prompt.clone();
        self.prompt = String::new();
        if answer.as_str().is_empty() {
            self.status_message = String::from_str("Save aborted");
            Action::Continue
        } else {
            self.status_message = String::new();
            if self.document.name().is_none() {
                self.document.set_name(Some(answer));
            } else {
                self.save_as = Some(answer);
            }
            Action::Save
        }
    }

    fn left(&mut self)
        ensures
            final(self)@ == old(self)@.left(),
    {
        move_cursor_left(&mut self.cursor_position, &self.document, false);
    }

    fn right(&mut self, eol: bool)
        ensures
            final(self)@ == old(self)@.right(eol),
    {
        move_cursor_right(&mut self.cursor_position, &self.document, eol, false);
    }

    fn up(&mut self)
        ensures
            final(self)@ == old(self)@.up(),
    {
        move_cursor_up(&mut self.cursor_position);
    }

    fn down(&mut self)
        ensures
            final(self)@ == old(self)@.down(),
    {
        move_cursor_down(&mut self.cursor_position, &self.document);
    }

    fn page_up(&mut self)
        ensures
            final(self)@ == old(self)@.page_up(),
    {
        move_page_up(&mut self.cursor_position, &mut self.offset, self.size.height as usize);
    }

    fn page_down(&mut self)
        ensures
            final(self)@ == old(self)@.page_down(),
    {
        move_page_down(
            &mut self.cursor_position,
            &mut self.offset,
            &self.document,
            self.size.height as usize,
        );
    }

    fn select(&mut self)
        ensures
            final(self)@ == old(self)@.select(),
    {
        update_selection(&self.cursor_position, &mut self.hl_text, &self.document);
    }

    fn clamp(&mut self)
        ensures
            final(self)@ == old(self)@.clamp(),
    {
        update_cursor(&mut self.cursor_position, &self.document, &self.mode);
    }

    fn normal_command(&mut self, key: Key)
        requires
            old(self)@.mode == Mode::Normal,
        ensures
            final(self)@ == old(self)@.normal_command(key),
            old(self)@.document.single_lines() ==> final(self)@.document.single_lines(),
    {
        match key {
            Key::Ctrl('q') => self.should_quit = true,
            Key::Char('h') | Key::Left | Key::Backspace => self.left(),
            Key::Char('j') | Key::Down => self.down(),
            Key::Char('k') | Key::Up => self.up(),
            Key::Char('l') | Key::Right => self.right(false),
            Key::Ctrl('d') => self.page_up(),
            Key::Ctrl('u') => self.page_down(),
            Key::Char('x') => {
                edit_cmds::delete(&self.cursor_position, &mut self.document);
                self.clamp();
            },
            Key::Char('d') => self.pending = Some(Prefix::Delete),
            Key::Char('D') => {
                edit_cmds::delete_until_eol(&self.cursor_position, &mut self.document);
                self.left();
                self.clamp();
            },
            Key::Char('J') => {
                edit_cmds::delete_to_eol(&self.cursor_position, &mut self.document);
                self.clamp();
            },
            Key::Char('o') => {
                edit_cmds::insert_newline_below(&mut self.cursor_position, &mut self.document);
                self.down();
                self.mode = Mode::Insert;
                self.clamp();
            },
            Key::Char('O') => {
                edit_cmds::insert_newline_above(&mut self.cursor_position, &mut self.document);
                self.up();
                self.mode = Mode::Insert;
                self.clamp();
            },
            Key::Char('i') => self.mode = Mode::Insert,
            Key::Char('v') => {
                enter_visual_mode(&self.cursor_position, &mut self.hl_text, &mut self.mode);
                self.status_message = String::from_str("-- Visual Mode --");
            },
            Key::Char('a') => {
                self.right(true);
                self.mode = Mode::Insert;
            },
            Key::Char(' ') => self.pending = Some(Prefix::Leader),
            _ => (),
        }
    }

    fn normal_key(&mut self, key: Key) -> (action: Action)
        requires
            old(self)@.mode == Mode::Normal,
        ensures
            (final(self)@, action) == old(self)@.normal_key(key),
            old(self)@.document.single_lines() ==> final(self)@.document.single_lines(),
    {
        match self.pending {
            Some(Prefix::Delete) => {
                self.pending = None;
                if key == Key::Char('d') {
                    edit_cmds::delete_line(&mut self.cursor_position, &mut self.document);
                    self.clamp();
                }
                Action::Continue
            },
            Some(Prefix::Leader) => {
                self.pending = None;
                match key {
                    Key::Char('s') => self.begin_save(false),
                    Key::Char('w') => self.begin_save(true),
                    _ => Action::Continue,
                }
            },
            None => {
                self.normal_command(key);
                Action::Continue
            },
        }
    }

    fn insert_key(&mut self, key: Key) -> (action: Action)
        ensures
            (final(self)@, action) == old(self)@.insert_key(key),
            old(self)@.document.single_lines() ==> final(self)@.document.single_lines(),
    {
        match key {
            Key::Ctrl('q') => self.should_quit = true,
            Key::Ctrl('c') => self.mode = Mode::Normal,
            Key::Ctrl('s') => {
                return self.begin_save(false);
            },
            Key::Ctrl('w') => {
                return self.begin_save(true);
            },
            Key::Delete => {
                edit_cmds::delete(&self.cursor_position, &mut self.document);
                self.clamp();
            },
            Key::Backspace => {
                edit_cmds::delete_backspace(&mut self.cursor_position, &mut self.document);
                self.clamp();
            },
            Key::Char('\n') => {
                edit_cmds::insert_newline(&mut self.cursor_position, &mut self.document);
                move_cursor_bol(&mut self.cursor_position);
                self.down();
                self.clamp();
            },
            Key::Char(c) => {
                edit_cmds::insert(&self.cursor_position, &mut self.document, c);
                self.right(true);
                self.clamp();
            },
            Key::Left => self.left(),
            Key::Down => self.down(),
            Key::Up => self.up(),
            Key::Right => self.right(true),
            Key::Ctrl('d') => self.page_up(),
            Key::Ctrl('u') => self.page_down(),
            _ => (),
        }
        Action::Continue
    }

    fn visual_key(&mut self, key: Key)
        ensures
            final(self)@ == old(self)@.visual_key(key),
            old(self)@.document.single_lines() ==> final(self)@.document.single_lines(),
    {
        match key {
            Key::Ctrl('q') => self.should_quit = true,
            Key::Char('v') | Key::Ctrl('c') => self.mode = Mode::Normal,
            Key::Char('x') => {
                let (low, high) = self.hl_text.normalize();
                edit_cmds::delete_selection(&low, &high, &mut self.document);
                self.cursor_position = low;
                self.mode = Mode::Normal;
                self.status_message = String::new();
                self.clamp();
            },
            Key::Char('h') | Key::Left | Key::Backspace => {
                self.left();
                self.select();
            },
            Key::Char('j') | Key::Down => {
                self.down();
                self.select();
            },
            Key::Char('k') | Key::Up => {
                self.up();
                self.select();
            },
            Key::Char('l') | Key::Right => {
                self.right(true);
                self.select();
            },
            Key::Ctrl('d') => {
                self.page_up();
                self.select();
            },
            Key::Ctrl('u') => {
                self.page_down();
                self.select();
            },
            _ => (),
        }
    }

    fn prompt_key(&mut self, key: Key) -> (action: Action)
        ensures
            (final(self)@, action) == old(self)@.prompt_key(key),
    {
        match key {
            Key::Char('\n') => {
                return self.finish_prompt();
            },
            Key::Ctrl('q') => {
                self.prompt = String::new();
                return self.finish_prompt();
            },
            Key::Backspace => {
                let _ = self.prompt.pop();
            },
            Key::Char(c) => {
                if !is_control(c) {
                    self.prompt.push(c);
                }
            },
            _ => (),
        }
        let mut status = String::from_str("Save as: ");
        status.append(self.prompt.as_str());
        self.status_message = status;
        Action::Continue
    }

    /// Handles one key press and tells the caller what to do next.
    pub fn process_keypress(&mut self, key: Key) -> (action: Action)
        ensures
            (final(self)@, action) == old(self)@.process_keypress(key),
            old(self)@.document.single_lines() ==> final(self)@.document.single_lines(),
    {
        let action = match self.mode {
            Mode::Normal => self.normal_key(key),
            Mode::Insert => self.insert_key(key),
            Mode::Visual => {
                self.visual_key(key);
                Action::Continue
            },
            Mode::Command => self.prompt_key(key),
        };
        self.scroll();
        action
    }
}

} // verus!
