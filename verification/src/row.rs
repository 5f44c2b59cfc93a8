//! A single line of text, addressed by grapheme-cluster index.

use crate::clusters::{
    clamp_index, cut_out, displayed, join, joined, lemma_cut_no_line_feed,
    lemma_joined_no_line_feed, lemma_spliced_no_line_feed, no_line_feed, show, shown, splice,
    texts,
};
use crate::segmentation::{
    grapheme_clusters, grapheme_len, graphemes, lemma_partition_of_empty, well_segmented,
};
use vstd::prelude::*;
use vstd::seq_lib::lemma_flatten_concat;
use vstd::std_specs::cmp::PartialEqSpecImpl;
use vstd::std_specs::convert::FromSpecImpl;
use vstd::string::StringExecFns;
use vstd::utf8::encode_utf8;

verus! {

/// The text of the clusters `[from, to)` of `text`. `to` is clamped to the
/// number of clusters and `from` is clamped to `to`.
pub open spec fn cluster_range(text: Seq<char>, from: int, to: int) -> Seq<char> {
    joined(grapheme_clusters(text), from, to)
}

/// `text` with `c` appended when `at` is not the index of a cluster, and
/// spliced in before cluster `at` otherwise.
pub open spec fn inserted(text: Seq<char>, at: int, c: char) -> Seq<char> {
    let len = grapheme_len(text) as int;
    if at >= len {
        text.push(c)
    } else {
        cluster_range(text, 0, at) + seq![c] + cluster_range(text, at, len)
    }
}

/// `text` without its cluster `at`; `text` itself when there is no such cluster.
pub open spec fn deleted(text: Seq<char>, at: int) -> Seq<char> {
    let len = grapheme_len(text) as int;
    if at >= len {
        text
    } else {
        cluster_range(text, 0, at) + cluster_range(text, at + 1, len)
    }
}

/// `text` without its clusters `[start, end]`, the end clamped to the last
/// cluster; `text` itself when that range is empty.
pub open spec fn range_deleted(text: Seq<char>, start: int, end: int) -> Seq<char> {
    let len = grapheme_len(text) as int;
    if start > end || start >= len {
        text
    } else {
        cluster_range(text, 0, start) + cluster_range(text, end + 1, len)
    }
}

/// The first `at` clusters of `text`.
pub open spec fn head(text: Seq<char>, at: int) -> Seq<char> {
    cluster_range(text, 0, at)
}

/// What follows the first `at` clusters of `text`.
pub open spec fn tail(text: Seq<char>, at: int) -> Seq<char> {
    cluster_range(text, at, grapheme_len(text) as int)
}

/// The displayed text of the clusters `[start, end)` of `text`, clamped as in
/// [`cluster_range`].
pub open spec fn rendered(text: Seq<char>, start: int, end: int) -> Seq<char> {
    shown(grapheme_clusters(text), start, end)
}

/// Where a highlight of the columns `first..=last` falls within the window
/// `[start, end)`: the columns `[from, to)` with `start <= from <= to <= end`.
/// A window with `start > end` counts as empty at `end`.
pub open spec fn highlight_within(start: int, end: int, first: int, last: int) -> (int, int) {
    let start = if start > end {
        end
    } else {
        start
    };
    let from = clamp_index(first, start, end);
    let to = clamp_index(last + 1, from, end);
    (from, to)
}

/// The text of the clusters `[start, end)` of `text`, or of all clusters from
/// `start` on when `end` is zero.
pub open spec fn sliced(text: Seq<char>, start: int, end: int) -> Seq<char> {
    if end == 0 {
        tail(text, start)
    } else {
        cluster_range(text, start, end)
    }
}

/// Whether `c`, inserted into `text` at cluster index `at`, stands as a
/// grapheme cluster of its own and leaves the other clusters as they were.
///
/// This fails where `c` joins a neighbour: a combining mark after its base
/// character, a line feed after a carriage return.
pub open spec fn inserts_as_cluster(text: Seq<char>, at: int, c: char) -> bool {
    let clusters = grapheme_clusters(text);
    grapheme_clusters(inserted(text, at, c)) == clusters.insert(
        clamp_index(at, 0, clusters.len() as int),
        seq![c],
    )
}

/// Cutting a well-segmented text after its first `at` clusters loses nothing:
/// the two parts concatenate to the text.
pub proof fn lemma_head_tail(text: Seq<char>, at: int)
    requires
        well_segmented(text),
    ensures
        head(text, at) + tail(text, at) == text,
{
    let clusters = grapheme_clusters(text);
    let cut = clamp_index(at, 0, clusters.len() as int);
    assert(clusters.subrange(0, cut) + clusters.subrange(cut, clusters.len() as int)
        =~= clusters);
    lemma_flatten_concat(
        clusters.subrange(0, cut),
        clusters.subrange(cut, clusters.len() as int),
    );
}

/// Rendering a window in two parts and joining them renders the window.
pub proof fn lemma_render_split(text: Seq<char>, start: int, middle: int, end: int)
    requires
        0 <= start <= middle <= end,
    ensures
        rendered(text, start, middle) + rendered(text, middle, end) == rendered(text, start, end),
{
    let clusters = grapheme_clusters(text);
    let len = clusters.len() as int;
    let stop = clamp_index(end, 0, len);
    let cut = clamp_index(middle, 0, stop);
    let from = clamp_index(start, 0, cut);
    let show = |cluster: Seq<char>| displayed(cluster);
    let left = clusters.subrange(from, cut).map_values(show);
    let right = clusters.subrange(cut, stop).map_values(show);
    assert(left + right =~= clusters.subrange(from, stop).map_values(show));
    lemma_flatten_concat(left, right);
}

/// The three parts of a highlighted window, joined, render the window.
pub proof fn lemma_render_highlighted(text: Seq<char>, start: int, end: int, first: int, last: int)
    requires
        0 <= start <= end,
    ensures
        ({
            let (from, to) = highlight_within(start, end, first, last);
            rendered(text, start, from) + rendered(text, from, to) + rendered(text, to, end)
                == rendered(text, start, end)
        }),
{
    let (from, to) = highlight_within(start, end, first, last);
    lemma_render_split(text, start, from, to);
    lemma_render_split(text, start, to, end);
}

/// A character that stands as a cluster of its own makes the line one
/// cluster longer, and that cluster renders as the character (a tab as a
/// space).
pub proof fn lemma_insert_adds_one_cluster(text: Seq<char>, at: int, c: char)
    requires
        0 <= at,
        inserts_as_cluster(text, at, c),
    ensures
        grapheme_len(inserted(text, at, c)) == grapheme_len(text) + 1,
        ({
            let index = clamp_index(at, 0, grapheme_len(text) as int);
            rendered(inserted(text, at, c), index, index + 1) == displayed(seq![c])
        }),
{
    let clusters = grapheme_clusters(text);
    let index = clamp_index(at, 0, clusters.len() as int);
    let after = clusters.insert(index, seq![c]);
    let shown = after.subrange(index, index + 1).map_values(
        |cluster: Seq<char>| displayed(cluster),
    );
    shown.lemma_flatten_one_element();
}

/// Inserting a character and then deleting the cluster at the index where it
/// went restores the text, provided the character stands as a cluster of its
/// own.
pub proof fn lemma_insert_then_delete(text: Seq<char>, at: int, c: char)
    requires
        well_segmented(text),
        0 <= at,
        inserts_as_cluster(text, at, c),
    ensures
        deleted(inserted(text, at, c), clamp_index(at, 0, grapheme_len(text) as int)) == text,
{
    let clusters = grapheme_clusters(text);
    let len = clusters.len() as int;
    let index = clamp_index(at, 0, len);
    let after = clusters.insert(index, seq![c]);
    assert(after.subrange(0, index) =~= clusters.subrange(0, index));
    assert(after.subrange(index + 1, len + 1) =~= clusters.subrange(index, len));
    lemma_head_tail(text, index);
}

/// A line of text together with its cached grapheme count.
#[derive(Debug)]
pub struct Row {
    string: String,
    len: usize,
}

impl View for Row {
    type V = Seq<char>;

    closed spec fn view(&self) -> Seq<char> {
        self.string@
    }
}

impl Row {
    #[verifier::type_invariant]
    spec fn inv(&self) -> bool {
        &&& well_segmented(self.string@)
        &&& self.len == grapheme_len(self.string@)
    }

    /// Wraps `string`, counting its grapheme clusters.
    fn from_string(string: String) -> (row: Row)
        ensures
            row@ == string@,
            well_segmented(row@),
    {
        let parts = graphemes(string.as_str());
        let len = parts.len();
        Row { string, len }
    }

    /// Number of grapheme clusters in the line.
    pub fn len(&self) -> (n: usize)
        ensures
            n == grapheme_len(self@),
            well_segmented(self@),
    {
        proof {
            use_type_invariant(self);
        }
        self.len
    }

    /// Whether the line holds no grapheme cluster.
    pub fn is_empty(&self) -> (b: bool)
        ensures
            b == (grapheme_len(self@) == 0),
    {
        proof {
            use_type_invariant(self);
        }
        self.len == 0
    }

    /// Inserts `c` before the cluster at `at`, or at the end of the line when
    /// `at` is not the index of a cluster.
    pub fn insert(&mut self, at: usize, c: char)
        ensures
            final(self)@ == inserted(old(self)@, at as int, c),
            no_line_feed(old(self)@) && c != '\n' ==> no_line_feed(final(self)@),
    {
        let parts = graphemes(self.string.as_str());
        let result = splice(&parts, at, c);
        proof {
            let clusters = texts(parts@);
            if no_line_feed(clusters.flatten()) && c != '\n' {
                lemma_spliced_no_line_feed(clusters, at as int, c);
            }
            assert(clusters.subrange(0, clusters.len() as int) =~= clusters);
        }
        *self = Row::from_string(result);
    }

    /// Removes the cluster at `at`; does nothing when there is none.
    pub fn delete(&mut self, at: usize)
        ensures
            final(self)@ == deleted(old(self)@, at as int),
            no_line_feed(old(self)@) ==> no_line_feed(final(self)@),
    {
        proof {
            use_type_invariant(&*self);
        }
        if at >= self.len {
            return ;
        }
        let parts = graphemes(self.string.as_str());
        let result = cut_out(&parts, at, at);
        proof {
            if no_line_feed(texts(parts@).flatten()) {
                lemma_cut_no_line_feed(texts(parts@), at as int, at as int);
            }
        }
        *self = Row::from_string(result);
    }

    /// Removes the clusters `start..=end`, with `end` clamped to the last
    /// cluster; does nothing when that range is empty.
    pub fn delete_slice(&mut self, start: usize, end: usize)
        ensures
            final(self)@ == range_deleted(old(self)@, start as int, end as int),
            no_line_feed(old(self)@) ==> no_line_feed(final(self)@),
    {
        proof {
            use_type_invariant(&*self);
        }
        if start > end || start >= self.len {
            return ;
        }
        let parts = graphemes(self.string.as_str());
        let result = cut_out(&parts, start, end);
        proof {
            if no_line_feed(texts(parts@).flatten()) {
                lemma_cut_no_line_feed(texts(parts@), start as int, end as int);
            }
        }
        *self = Row::from_string(result);
    }

    /// Keeps the first `start` clusters and drops the rest of the line.
    pub fn delete_until_eol(&mut self, start: usize)
        ensures
            final(self)@ == head(old(self)@, start as int),
            no_line_feed(old(self)@) ==> no_line_feed(final(self)@),
    {
        let parts = graphemes(self.string.as_str());
        let result = join(&parts, 0, start);
        proof {
            if no_line_feed(texts(parts@).flatten()) {
                lemma_joined_no_line_feed(texts(parts@), 0, start as int);
            }
        }
        *self = Row::from_string(result);
    }

    /// Appends the text of `row` to this line.
    pub fn append(&mut self, row: &Row)
        ensures
            final(self)@ == old(self)@ + row@,
            no_line_feed(old(self)@) && no_line_feed(row@) ==> no_line_feed(final(self)@),
    {
        let mut result = self.string.clone();
        result.append(row.string.as_str());
        *self = Row::from_string(result);
    }

    /// Keeps the first `at` clusters in this line and returns the rest as a
    /// new line.
    #[must_use]
    pub fn split(&mut self, at: usize) -> (rest: Row)
        ensures
            final(self)@ == head(old(self)@, at as int),
            rest@ == tail(old(self)@, at as int),
            no_line_feed(old(self)@) ==> no_line_feed(final(self)@) && no_line_feed(rest@),
    {
        let parts = graphemes(self.string.as_str());
        let first = join(&parts, 0, at);
        let second = join(&parts, at, parts.len());
        proof {
            if no_line_feed(texts(parts@).flatten()) {
                lemma_joined_no_line_feed(texts(parts@), 0, at as int);
                lemma_joined_no_line_feed(texts(parts@), at as int, parts.len() as int);
            }
        }
        *self = Row::from_string(first);
        Row::from_string(second)
    }

    /// The displayable text of the clusters `[start, end)`: `end` is clamped
    /// to the length of the line and `start` to `end`, and a tab is shown as a
    /// single space.
    #[must_use]
    pub fn render(&self, start: usize, end: usize) -> (out: String)
        ensures
            out@ == rendered(self@, start as int, end as int),
    {
        let parts = graphemes(self.string.as_str());
        show(&parts, start, end)
    }

    /// The displayable text of the clusters `[start, end)` in three parts:
    /// what precedes the highlighted columns `first..=last`, what lies within
    /// them, and what follows them.
    #[must_use]
    pub fn render_highlighted(&self, start: usize, end: usize, first: usize, last: usize) -> (parts:
        (String, String, String))
        ensures
            ({
                let (from, to) = highlight_within(
                    start as int,
                    end as int,
                    first as int,
                    last as int,
                );
                &&& parts.0@ == rendered(self@, start as int, from)
                &&& parts.1@ == rendered(self@, from, to)
                &&& parts.2@ == rendered(self@, to, end as int)
            }),
    {
        let start = if start > end {
            end
        } else {
            start
        };
        let from = if first < start {
            start
        } else if first > end {
            end
        } else {
            first
        };
        let to = if last >= end {
            end
        } else if last + 1 < from {
            from
        } else {
            last + 1
        };
        (self.render(start, from), self.render(from, to), self.render(to, end))
    }

    /// The text of the clusters `[start, end)`, or of all clusters from
    /// `start` on when `end` is zero. Indices past the end of the line are
    /// clamped.
    #[must_use]
    pub fn slice(&self, start: usize, end: usize) -> (out: String)
        ensures
            out@ == sliced(self@, start as int, end as int),
    {
        let parts = graphemes(self.string.as_str());
        if end == 0 {
            join(&parts, start, parts.len())
        } else {
            join(&parts, start, end)
        }
    }

    /// The text of the line.
    #[must_use]
    pub fn as_str(&self) -> (text: &str)
        ensures
            text@ == self@,
    {
        self.string.as_str()
    }

    /// The UTF-8 encoding of the line.
    #[must_use]
    pub fn as_bytes(&self) -> (bytes: &[u8])
        ensures
            bytes@ == encode_utf8(self@),
    {
        self.string.as_str().as_bytes()
    }
}

impl Default for Row {
    /// The empty line.
    fn default() -> (row: Row)
        ensures
            row@ == Seq::<char>::empty(),
            grapheme_len(row@) == 0,
    {
        let row = Row::from_string(String::new());
        proof {
            lemma_partition_of_empty(grapheme_clusters(row@));
        }
        row
    }
}

impl Clone for Row {
    fn clone(&self) -> (row: Row)
        ensures
            row@ == self@,
    {
        Row::from_string(self.string.clone())
    }
}

impl<'a> From<&'a str> for Row {
    /// The line holding the text `slice`.
    fn from(slice: &'a str) -> (row: Row)
        ensures
            row@ == slice@,
    {
        Row::from_string(String::from_str(slice))
    }
}

/// The conversion from text is specified on [`Row::from`] itself, through the
/// view of the row it returns, and not as a function on rows.
impl<'a> FromSpecImpl<&'a str> for Row {
    open spec fn obeys_from_spec() -> bool {
        false
    }

    open spec fn from_spec(slice: &'a str) -> Row {
        arbitrary()
    }
}

impl PartialEq for Row {
    /// Two lines are equal when they hold the same text.
    fn eq(&self, other: &Row) -> (r: bool) {
        self.string == other.string
    }
}

impl PartialEqSpecImpl for Row {
    open spec fn obeys_eq_spec() -> bool {
        true
    }

    open spec fn eq_spec(&self, other: &Row) -> bool {
        self@ == other@
    }
}

} // verus!
