//! The text buffer: an ordered sequence of lines with a dirty flag.

use crate::editor::Position;
use crate::row::{
    deleted, head, inserted, inserts_as_cluster, lemma_head_tail, range_deleted, tail, Row,
};
use crate::clusters::no_line_feed;
use crate::lines::{
    join_lines, lemma_split_lines_no_line_feed, lines_of, owned_texts, split_lines,
};
use crate::segmentation::{grapheme_len, well_segmented};
use vstd::prelude::*;
use vstd::std_specs::cmp::PartialEqSpecImpl;
use vstd::string::StringExecFns;

verus! {

/// What a [`Document`] holds: the text of each line in document order, the
/// name it is bound to, and whether it has been changed since it was last
/// saved.
pub struct DocumentView {
    pub lines: Seq<Seq<char>>,
    pub file_name: Option<Seq<char>>,
    pub dirty: bool,
}

/// `lines` after a request to insert `c` at `at`: appended to line `at.y`
/// or spliced into it, as a new last line when `at.y` is one past the last
/// line, and not at all when `at.y` lies further out.
pub open spec fn char_inserted(lines: Seq<Seq<char>>, at: Position, c: char) -> Seq<Seq<char>> {
    if at.y > lines.len() {
        lines
    } else if at.y == lines.len() {
        lines.push(seq![c])
    } else {
        lines.update(at.y as int, inserted(lines[at.y as int], at.x as int, c))
    }
}

/// `lines` after a line break is inserted at `at`: line `at.y` is cut at
/// column `at.x` and what follows the cut becomes the next line. One past the
/// last line an empty line is added; further out nothing happens.
pub open spec fn newline_inserted(lines: Seq<Seq<char>>, at: Position) -> Seq<Seq<char>> {
    if at.y > lines.len() {
        lines
    } else if at.y == lines.len() {
        lines.push(Seq::<char>::empty())
    } else {
        let line = lines[at.y as int];
        lines.update(at.y as int, head(line, at.x as int)).insert(
            at.y + 1,
            tail(line, at.x as int),
        )
    }
}

/// Whether deleting at `at` removes the line break after line `at.y`.
pub open spec fn at_line_break(lines: Seq<Seq<char>>, at: Position) -> bool {
    at.y + 1 < lines.len() && at.x == grapheme_len(lines[at.y as int])
}

/// `lines` with line `y + 1` appended to line `y` and removed; `lines`
/// itself when there is no line `y + 1`.
pub open spec fn joined_with_next(lines: Seq<Seq<char>>, y: int) -> Seq<Seq<char>> {
    if 0 <= y && y + 1 < lines.len() {
        lines.update(y, lines[y] + lines[y + 1]).remove(y + 1)
    } else {
        lines
    }
}

/// `lines` after a delete at `at`: at the end of a line that has a successor
/// the two lines are merged, otherwise the cluster at `at` is removed.
pub open spec fn char_deleted(lines: Seq<Seq<char>>, at: Position) -> Seq<Seq<char>> {
    if at.y >= lines.len() {
        lines
    } else if at_line_break(lines, at) {
        joined_with_next(lines, at.y as int)
    } else {
        lines.update(at.y as int, deleted(lines[at.y as int], at.x as int))
    }
}

/// `lines` with line `at.y` cut down to its first `at.x` clusters; `lines`
/// itself when there is no such line.
pub open spec fn line_truncated(lines: Seq<Seq<char>>, at: Position) -> Seq<Seq<char>> {
    if at.y < lines.len() {
        lines.update(at.y as int, head(lines[at.y as int], at.x as int))
    } else {
        lines
    }
}

/// `lines` without those whose index lies in `start..=end`.
pub open spec fn lines_deleted(lines: Seq<Seq<char>>, start: int, end: int) -> Seq<Seq<char>> {
    if start < 0 || start > end || start >= lines.len() {
        lines
    } else if end >= lines.len() {
        lines.take(start)
    } else {
        lines.take(start) + lines.skip(end + 1)
    }
}

/// Whether the span from `start` to `end` can be deleted: both lines exist
/// and `start.y` does not come after `end.y`.
pub open spec fn span_addressable(lines: Seq<Seq<char>>, start: Position, end: Position) -> bool {
    start.y <= end.y < lines.len()
}

/// Whether a span over several lines covers exactly whole lines: it starts in
/// column 0 and ends on the last cluster of its last line.
pub open spec fn whole_line_span(lines: Seq<Seq<char>>, start: Position, end: Position) -> bool {
    let last = grapheme_len(lines[end.y as int]);
    start.x == 0 && end.x == (if last == 0 {
        0
    } else {
        last - 1
    })
}

/// `lines` without the span from `start` to `end`, both inclusive.
///
/// Within one line the clusters `start.x..=end.x` are removed. A span of
/// whole lines removes those lines. Any other span over several lines leaves
/// one line in their place: what precedes `start` on its line followed by
/// what follows `end` on its line.
pub open spec fn span_deleted(lines: Seq<Seq<char>>, start: Position, end: Position) -> Seq<
    Seq<char>,
> {
    if !span_addressable(lines, start, end) {
        lines
    } else if start.y == end.y {
        lines.update(
            start.y as int,
            range_deleted(lines[start.y as int], start.x as int, end.x as int),
        )
    } else if whole_line_span(lines, start, end) {
        lines_deleted(lines, start.y as int, end.y as int)
    } else {
        let merged = head(lines[start.y as int], start.x as int) + tail(
            lines[end.y as int],
            end.x + 1,
        );
        lines.take(start.y as int).push(merged) + lines.skip(end.y + 1)
    }
}

/// `lines` after `count` requests to insert a space at `at`.
pub open spec fn spaces_inserted(lines: Seq<Seq<char>>, at: Position, count: nat) -> Seq<Seq<char>>
    decreases count,
{
    if count == 0 {
        lines
    } else {
        char_inserted(spaces_inserted(lines, at, (count - 1) as nat), at, ' ')
    }
}

impl DocumentView {
    /// Whether no line holds a line feed: line breaks lie between the lines,
    /// never within one.
    pub open spec fn single_lines(self) -> bool {
        forall|i: int| 0 <= i < self.lines.len() ==> no_line_feed(#[trigger] self.lines[i])
    }

    /// This document after an edit that left it with `lines`; `changed` tells
    /// whether the edit applied, in which case the document is dirty.
    pub open spec fn edited(self, lines: Seq<Seq<char>>, changed: bool) -> DocumentView {
        DocumentView { lines, dirty: self.dirty || changed, ..self }
    }

    /// This document after [`Document::insert`].
    pub open spec fn insert(self, at: Position, c: char) -> DocumentView {
        self.edited(char_inserted(self.lines, at, c), at.y <= self.lines.len())
    }

    /// This document after [`Document::insert_newline`].
    pub open spec fn insert_newline(self, at: Position) -> DocumentView {
        self.edited(newline_inserted(self.lines, at), at.y <= self.lines.len())
    }

    /// This document after [`Document::delete`].
    pub open spec fn delete(self, at: Position) -> DocumentView {
        self.edited(char_deleted(self.lines, at), at.y < self.lines.len())
    }

    /// This document after [`Document::insert_spaces`].
    pub open spec fn insert_spaces(self, at: Position, number: nat) -> DocumentView {
        self.edited(
            spaces_inserted(self.lines, at, number),
            number > 0 && at.y <= self.lines.len(),
        )
    }

    /// This document after [`Document::delete_lines`].
    pub open spec fn delete_lines(self, start: int, end: int) -> DocumentView {
        self.edited(lines_deleted(self.lines, start, end), start <= end && start < self.lines.len())
    }

    /// This document after [`Document::delete_line`].
    pub open spec fn delete_line(self, at: int) -> DocumentView {
        self.delete_lines(at, at)
    }

    /// This document after [`Document::delete_slice`].
    pub open spec fn delete_slice(self, start: Position, end: Position) -> DocumentView {
        self.edited(span_deleted(self.lines, start, end), span_addressable(self.lines, start, end))
    }

    /// This document after [`Document::delete_until_eol`].
    pub open spec fn delete_until_eol(self, at: Position) -> DocumentView {
        self.edited(line_truncated(self.lines, at), at.y < self.lines.len())
    }

    /// This document after [`Document::delete_to_eol`].
    pub open spec fn delete_to_eol(self, at: Position) -> DocumentView {
        self.edited(joined_with_next(self.lines, at.y as int), at.y + 1 < self.lines.len())
    }
}

/// Inserting a character on an existing line and then deleting at the column
/// where it went restores the lines, provided the character stands as a
/// cluster of its own.
pub proof fn lemma_insert_then_delete(lines: Seq<Seq<char>>, at: Position, c: char)
    requires
        at.y < lines.len(),
        well_segmented(lines[at.y as int]),
        inserts_as_cluster(lines[at.y as int], at.x as int, c),
    ensures
        ({
            let width = grapheme_len(lines[at.y as int]);
            let landed = Position {
                y: at.y,
                x: if at.x < width {
                    at.x
                } else {
                    width as usize
                },
            };
            char_deleted(char_inserted(lines, at, c), landed) == lines
        }),
{
    let line = lines[at.y as int];
    crate::row::lemma_insert_then_delete(line, at.x as int, c);
    crate::row::lemma_insert_adds_one_cluster(line, at.x as int, c);
}

/// Breaking an existing line and then deleting at the line break this made
/// restores the lines. `boundary` is that line break: the position one past
/// the last cluster of what stayed on line `at.y`.
pub proof fn lemma_newline_then_delete(lines: Seq<Seq<char>>, at: Position, boundary: Position)
    requires
        at.y < lines.len(),
        well_segmented(lines[at.y as int]),
        boundary.y == at.y,
        boundary.x == grapheme_len(head(lines[at.y as int], at.x as int)),
    ensures
        char_deleted(newline_inserted(lines, at), boundary) == lines,
{
    lemma_head_tail(lines[at.y as int], at.x as int);
}

/// The texts of a sequence of rows.
pub open spec fn row_texts(rows: Seq<Row>) -> Seq<Seq<char>> {
    rows.map_values(|row: Row| row@)
}

/// An ordered sequence of lines, an optional file name and a dirty flag.
#[derive(Debug)]
pub struct Document {
    rows: Vec<Row>,
    pub file_name: Option<String>,
    dirty: bool,
}

impl View for Document {
    type V = DocumentView;

    closed spec fn view(&self) -> DocumentView {
        DocumentView {
            lines: row_texts(self.rows@),
            file_name: match self.file_name {
                Some(name) => Some(name@),
                None => None,
            },
            dirty: self.dirty,
        }
    }
}

impl Default for Document {
    /// The empty, unnamed, unmodified document.
    fn default() -> (doc: Document)
        ensures
            doc@ == (DocumentView { lines: Seq::empty(), file_name: None, dirty: false }),
            doc@.single_lines(),
    {
        let doc = Document { rows: Vec::new(), file_name: None, dirty: false };
        assert(doc@.lines =~= Seq::empty());
        doc
    }
}

impl PartialEq for Document {
    /// `a == b` holds when every line of `a` is the line of `b` at the same
    /// index: the lines of `a` begin the lines of `b`. Names and dirty flags
    /// are not compared.
    fn eq(&self, other: &Document) -> (r: bool) {
        if self.rows.len() > other.rows.len() {
            return false;
        }
        let mut i: usize = 0;
        while i < self.rows.len()
            invariant
                i <= self.rows.len() <= other.rows.len(),
                forall|j: int| 0 <= j < i ==> self@.lines[j] == other@.lines[j],
            decreases self.rows.len() - i,
        {
            if self.rows[i] != other.rows[i] {
                assert(self@.lines[i as int] != other@.lines[i as int]);
                return false;
            }
            i = i + 1;
        }
        true
    }
}

impl PartialEqSpecImpl for Document {
    open spec fn obeys_eq_spec() -> bool {
        true
    }

    open spec fn eq_spec(&self, other: &Document) -> bool {
        self@.lines.is_prefix_of(other@.lines)
    }
}

impl Document {
    /// The document named `filename` whose text is `contents`: one line per
    /// line of `contents`, not yet modified.
    pub fn open(filename: &str, contents: &str) -> (doc: Document)
        ensures
            doc@ == (DocumentView {
                lines: split_lines(contents@),
                file_name: Some(filename@),
                dirty: false,
            }),
            doc@.single_lines(),
    {
        proof {
            lemma_split_lines_no_line_feed(contents@);
        }
        let lines = lines_of(contents);
        let mut rows: Vec<Row> = Vec::new();
        let mut i: usize = 0;
        while i < lines.len()
            invariant
                i <= lines.len(),
                rows.len() == i,
                row_texts(rows@) == owned_texts(lines@).take(i as int),
            decreases lines.len() - i,
        {
            rows.push(Row::from(lines[i].as_str()));
            i = i + 1;
        }
        assert(owned_texts(lines@).take(i as int) =~= owned_texts(lines@));
        Document { rows, file_name: Some(String::from_str(filename)), dirty: false }
    }

    /// The text of the document: each line followed by one line feed.
    #[must_use]
    pub fn contents(&self) -> (text: String)
        ensures
            text@ == join_lines(self@.lines),
    {
        let mut text = String::new();
        let ghost terminated = self@.lines.map_values(|line: Seq<char>| line.push('\n'));
        let mut i: usize = 0;
        while i < self.rows.len()
            invariant
                i <= self.rows.len(),
                terminated == self@.lines.map_values(|line: Seq<char>| line.push('\n')),
                text@ == terminated.take(i as int).flatten(),
            decreases self.rows.len() - i,
        {
            text.append(self.rows[i].as_str());
            text.push('\n');
            proof {
                let done = terminated.take(i as int);
                assert(terminated.take(i + 1) =~= done.push(terminated[i as int]));
                done.lemma_flatten_push(terminated[i as int]);
            }
            i = i + 1;
        }
        assert(terminated.take(i as int) =~= terminated);
        text
    }

    /// Where a save goes: to `file_name` when one is given, else to the name
    /// the document is bound to, if any.
    #[must_use]
    pub fn save_target(&self, file_name: Option<String>) -> (target: Option<String>)
        ensures
            match target {
                Some(name) => Some(name@) == (match file_name {
                    Some(given) => Some(given@),
                    None => self@.file_name,
                }),
                None => file_name is None && self@.file_name is None,
            },
    {
        match file_name {
            Some(given) => Some(given),
            None => match &self.file_name {
                Some(bound) => Some(bound.clone()),
                None => None,
            },
        }
    }

    /// The name the document is bound to, if any.
    #[must_use]
    pub fn name(&self) -> (name: Option<&String>)
        ensures
            match name {
                Some(name) => self@.file_name == Some(name@),
                None => self@.file_name is None,
            },
    {
        self.file_name.as_ref()
    }

    /// Binds the document to `name`, or to no name.
    pub fn set_name(&mut self, name: Option<String>)
        ensures
            final(self)@ == (DocumentView {
                file_name: match name {
                    Some(name) => Some(name@),
                    None => None,
                },
                ..old(self)@
            }),
    {
        self.file_name = name;
    }

    /// Records that the document has been written out: clears the dirty flag.
    pub fn mark_saved(&mut self)
        ensures
            final(self)@ == (DocumentView { dirty: false, ..old(self)@ }),
    {
        self.dirty = false;
    }

    /// Inserts `c` at `at`. On an existing line this is [`Row::insert`]; one
    /// past the last line it adds a line holding `c`; further out it does
    /// nothing. Marks the document dirty unless it did nothing.
    pub fn insert(&mut self, at: &Position, c: char)
        ensures
            final(self)@ == old(self)@.insert(*at, c),
            old(self)@.single_lines() && c != '\n' ==> final(self)@.single_lines(),
    {
        let len = self.rows.len();
        if at.y == len {
            self.dirty = true;
            let mut row = Row::default();
            row.insert(0, c);
            self.rows.push(row);
            assert(self@.lines =~= char_inserted(old(self)@.lines, *at, c));
        } else if at.y < len {
            self.dirty = true;
            self.rows[at.y].insert(at.x, c);
            assert(self@.lines =~= char_inserted(old(self)@.lines, *at, c));
        }
    }

    /// Inserts a line break at `at`: line `at.y` keeps its first `at.x`
    /// clusters and the rest becomes the next line. One past the last line an
    /// empty line is added; further out nothing happens. Marks the document
    /// dirty unless it did nothing.
    pub fn insert_newline(&mut self, at: &Position)
        ensures
            final(self)@ == old(self)@.insert_newline(*at),
            old(self)@.single_lines() ==> final(self)@.single_lines(),
    {
        let len = self.rows.len();
        if at.y > len {
            return ;
        }
        self.dirty = true;
        if at.y == len {
            self.rows.push(Row::default());
            assert(self@.lines =~= newline_inserted(old(self)@.lines, *at));
            return ;
        }
        let new_row = self.rows[at.y].split(at.x);
        self.rows.insert(at.y + 1, new_row);
        assert(self@.lines =~= newline_inserted(old(self)@.lines, *at));
    }

    /// Deletes at `at`. At the end of a line that has a successor, the
    /// successor is merged into the line; otherwise the cluster at `at.x` is
    /// removed. Does nothing when there is no line `at.y`, and marks the
    /// document dirty otherwise.
    pub fn delete(&mut self, at: &Position)
        ensures
            final(self)@ == old(self)@.delete(*at),
            old(self)@.single_lines() ==> final(self)@.single_lines(),
    {
        let len = self.rows.len();
        if at.y >= len {
            return ;
        }
        self.dirty = true;
        if at.x == self.rows[at.y].len() && at.y + 1 < len {
            let next_row = self.rows.remove(at.y + 1);
            self.rows[at.y].append(&next_row);
            assert(self@.lines =~= char_deleted(old(self)@.lines, *at));
        } else {
            self.rows[at.y].delete(at.x);
            assert(self@.lines =~= char_deleted(old(self)@.lines, *at));
        }
    }

    /// Inserts `number` spaces at `at`, one request after the other.
    pub fn insert_spaces(&mut self, at: &Position, number: usize)
        ensures
            final(self)@ == old(self)@.insert_spaces(*at, number as nat),
            old(self)@.single_lines() ==> final(self)@.single_lines(),
    {
        let ghost before = self@;
        let mut done: usize = 0;
        while done < number
            invariant
                done <= number,
                self@ == before.insert_spaces(*at, done as nat),
                before.single_lines() ==> self@.single_lines(),
                at.y <= before.lines.len() ==> at.y <= self@.lines.len(),
                at.y > before.lines.len() ==> self@.lines.len() == before.lines.len(),
            decreases number - done,
        {
            self.insert(at, ' ');
            done = done + 1;
        }
    }

    /// Removes line `at`; does nothing when there is no such line.
    pub fn delete_line(&mut self, at: usize)
        ensures
            final(self)@ == old(self)@.delete_line(at as int),
            old(self)@.single_lines() ==> final(self)@.single_lines(),
    {
        if at < self.rows.len() {
            self.rows.remove(at);
            self.dirty = true;
            assert(self@.lines =~= lines_deleted(old(self)@.lines, at as int, at as int));
        }
    }

    /// Removes the lines `start..=end` that exist, from the highest index
    /// downward.
    pub fn delete_lines(&mut self, start: usize, end: usize)
        ensures
            final(self)@ == old(self)@.delete_lines(start as int, end as int),
            old(self)@.single_lines() ==> final(self)@.single_lines(),
    {
        let len = self.rows.len();
        if start > end || start >= len {
            return ;
        }
        let last = if end < len {
            end
        } else {
            len - 1
        };
        let ghost before = self.rows@;
        let mut i: usize = last + 1;
        while i > start
            invariant
                start <= i <= last + 1 <= before.len(),
                self.rows@ == before.take(i as int) + before.skip(last + 1),
                self.file_name == old(self).file_name,
                self.dirty == old(self).dirty,
            decreases i,
        {
            i = i - 1;
            self.rows.remove(i);
        }
        self.dirty = true;
        assert(self@.lines =~= lines_deleted(old(self)@.lines, start as int, end as int));
    }

    /// Deletes the span from `start` to `end`, both inclusive.
    ///
    /// Does nothing unless both lines exist and `start.y <= end.y`. Within
    /// one line this is [`Row::delete_slice`]. A span over several lines that
    /// starts in column 0 and ends on the last cluster of its last line
    /// removes those lines. Any other span over several lines leaves a single
    /// line: what precedes `start` followed by what follows `end`.
    pub fn delete_slice(&mut self, start: &Position, end: &Position)
        ensures
            final(self)@ == old(self)@.delete_slice(*start, *end),
            old(self)@.single_lines() ==> final(self)@.single_lines(),
    {
        let len = self.rows.len();
        if start.y > end.y || end.y >= len {
            return ;
        }
        if start.y == end.y {
            self.rows[start.y].delete_slice(start.x, end.x);
            self.dirty = true;
            assert(self@.lines =~= span_deleted(old(self)@.lines, *start, *end));
            return ;
        }
        let end_len = self.rows[end.y].len();
        let last_column = if end_len == 0 {
            0
        } else {
            end_len - 1
        };
        if start.x == 0 && end.x == last_column {
            self.delete_lines(start.y, end.y);
            return ;
        }
        let resume = if end.x < end_len {
            end.x + 1
        } else {
            end_len
        };
        let remainder = self.rows[end.y].split(resume);
        self.rows[start.y].delete_until_eol(start.x);
        self.rows[start.y].append(&remainder);
        self.delete_lines(start.y + 1, end.y);
        assert(self@.lines =~= span_deleted(old(self)@.lines, *start, *end));
    }

    /// Drops what follows the first `at.x` clusters of line `at.y`; the line
    /// break and the following lines stay. Does nothing when there is no line
    /// `at.y`.
    pub fn delete_until_eol(&mut self, at: &Position)
        ensures
            final(self)@ == old(self)@.delete_until_eol(*at),
            old(self)@.single_lines() ==> final(self)@.single_lines(),
    {
        if at.y < self.rows.len() {
            self.rows[at.y].delete_until_eol(at.x);
            self.dirty = true;
            assert(self@.lines =~= line_truncated(old(self)@.lines, *at));
        }
    }

    /// Joins line `start.y` with the line after it: the line break between
    /// them is removed and the whole next line is appended. Nothing of line
    /// `start.y` is dropped. Does nothing when there is no next line.
    pub fn delete_to_eol(&mut self, start: &Position)
        ensures
            final(self)@ == old(self)@.delete_to_eol(*start),
            old(self)@.single_lines() ==> final(self)@.single_lines(),
    {
        let len = self.rows.len();
        if start.y < len && start.y + 1 < len {
            let next_row = self.rows.remove(start.y + 1);
            self.rows[start.y].append(&next_row);
            self.dirty = true;
            assert(self@.lines =~= joined_with_next(old(self)@.lines, start.y as int));
        }
    }

    /// Line `index`, if there is one.
    #[must_use]
    pub fn row(&self, index: usize) -> (row: Option<&Row>)
        ensures
            match row {
                Some(r) => index < self@.lines.len() && r@ == self@.lines[index as int],
                None => index >= self@.lines.len(),
            },
    {
        if index < self.rows.len() {
            Some(&self.rows[index])
        } else {
            None
        }
    }

    /// Line `index` for editing in place, if there is one. Edits made through
    /// the returned reference do not touch the dirty flag.
    pub fn row_as_mut(&mut self, index: usize) -> (row: Option<&mut Row>)
        ensures
            match row {
                Some(r) => {
                    &&& index < old(self)@.lines.len()
                    &&& r@ == old(self)@.lines[index as int]
                    &&& final(self)@ == (DocumentView {
                        lines: old(self)@.lines.update(index as int, final(r)@),
                        ..old(self)@
                    })
                },
                None => index >= old(self)@.lines.len() && final(self)@ == old(self)@,
            },
    {
        if index < self.rows.len() {
            let ghost before = self.rows@;
            let row = &mut self.rows[index];
            assert(row_texts(before.update(index as int, *final(row))) =~= row_texts(
                before,
            ).update(index as int, final(row)@));
            Some(row)
        } else {
            None
        }
    }

    /// The number of grapheme clusters in line `index`, if there is such a
    /// line.
    pub fn row_len(&self, index: usize) -> (len: Option<usize>)
        ensures
            match len {
                Some(n) => {
                    &&& index < self@.lines.len()
                    &&& n == grapheme_len(self@.lines[index as int])
                    &&& well_segmented(self@.lines[index as int])
                },
                None => index >= self@.lines.len(),
            },
    {
        if index < self.rows.len() {
            Some(self.rows[index].len())
        } else {
            None
        }
    }

    /// Whether `at` addresses no cluster of the document.
    pub fn is_out_of_bounds(&self, at: &Position) -> (out: bool)
        ensures
            out == !(at.y < self@.lines.len() && at.x < grapheme_len(self@.lines[at.y as int])),
    {
        match self.row_len(at.y) {
            Some(len) => at.x >= len,
            None => true,
        }
    }

    /// Whether the document has no lines.
    #[must_use]
    pub fn is_empty(&self) -> (empty: bool)
        ensures
            empty == (self@.lines.len() == 0),
    {
        self.rows.is_empty()
    }

    /// Whether the document has been changed since it was last saved.
    #[must_use]
    pub fn is_dirty(&self) -> (dirty: bool)
        ensures
            dirty == self@.dirty,
    {
        self.dirty
    }

    /// The number of lines.
    #[must_use]
    pub fn len(&self) -> (len: usize)
        ensures
            len == self@.lines.len(),
    {
        self.rows.len()
    }
}

} // verus!
