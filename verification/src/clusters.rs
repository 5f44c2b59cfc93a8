//! Editing a line that is given as the sequence of its grapheme clusters.
//!
//! The functions here take the clusters as they are handed in and never
//! segment text themselves. Indices count clusters and are clamped to the
//! sequence, so every function is total.

use vstd::prelude::*;
use vstd::string::{StrSliceExecFns, StringExecFns};

verus! {

/// The texts of a sequence of string slices.
pub open spec fn texts(parts: Seq<&str>) -> Seq<Seq<char>> {
    parts.map_values(|s: &str| s@)
}

/// The index `i` forced into `[lo, hi]`.
pub open spec fn clamp_index(i: int, lo: int, hi: int) -> int {
    if i < lo {
        lo
    } else if i > hi {
        hi
    } else {
        i
    }
}

/// The concatenation of the clusters `[from, to)`. `to` is clamped to the
/// number of clusters and `from` is clamped to `to`.
pub open spec fn joined(clusters: Seq<Seq<char>>, from: int, to: int) -> Seq<char> {
    let to = clamp_index(to, 0, clusters.len() as int);
    let from = clamp_index(from, 0, to);
    clusters.subrange(from, to).flatten()
}

/// The text of `clusters` with `c` put in before cluster `at`, or after the
/// last cluster when there is no cluster `at`.
pub open spec fn spliced(clusters: Seq<Seq<char>>, at: int, c: char) -> Seq<char> {
    joined(clusters, 0, at) + seq![c] + joined(clusters, at, clusters.len() as int)
}

/// The text of `clusters` without the clusters `start..=end`; all of it when
/// `start > end`.
pub open spec fn cut(clusters: Seq<Seq<char>>, start: int, end: int) -> Seq<char> {
    let len = clusters.len() as int;
    if start > end {
        joined(clusters, 0, len)
    } else {
        joined(clusters, 0, start) + joined(clusters, end + 1, len)
    }
}

/// How a cluster is displayed: a tab shows as one space, anything else as itself.
pub open spec fn displayed(cluster: Seq<char>) -> Seq<char> {
    if cluster == seq!['\t'] {
        seq![' ']
    } else {
        cluster
    }
}

/// The displayed text of the clusters `[start, end)`, clamped as in
/// [`joined`].
pub open spec fn shown(clusters: Seq<Seq<char>>, start: int, end: int) -> Seq<char> {
    let end = clamp_index(end, 0, clusters.len() as int);
    let start = clamp_index(start, 0, end);
    clusters.subrange(start, end).map_values(|cluster: Seq<char>| displayed(cluster)).flatten()
}

/// Whether `text` holds no line feed.
pub open spec fn no_line_feed(text: Seq<char>) -> bool {
    forall|i: int| 0 <= i < text.len() ==> text[i] != '\n'
}

/// A text holds no line feed exactly when none of the clusters it is made of
/// does.
pub proof fn lemma_flatten_no_line_feed(clusters: Seq<Seq<char>>)
    ensures
        no_line_feed(clusters.flatten()) <==> forall|k: int|
            0 <= k < clusters.len() ==> no_line_feed(#[trigger] clusters[k]),
    decreases clusters.len(),
{
    if clusters.len() > 0 {
        let first = clusters.first();
        let rest = clusters.drop_first();
        lemma_flatten_no_line_feed(rest);
        if no_line_feed(clusters.flatten()) {
            assert forall|i: int| 0 <= i < first.len() implies first[i] != '\n' by {
                assert((first + rest.flatten())[i] == first[i]);
            }
            assert forall|i: int| 0 <= i < rest.flatten().len() implies rest.flatten()[i]
                != '\n' by {
                assert((first + rest.flatten())[first.len() + i] == rest.flatten()[i]);
            }
            assert forall|k: int| 0 <= k < clusters.len() implies no_line_feed(
                #[trigger] clusters[k],
            ) by {
                if k > 0 {
                    assert(clusters[k] == rest[k - 1]);
                }
            }
        }
    }
}

/// A range of the clusters of a text without line feeds holds none either.
pub proof fn lemma_joined_no_line_feed(clusters: Seq<Seq<char>>, from: int, to: int)
    requires
        no_line_feed(clusters.flatten()),
    ensures
        no_line_feed(joined(clusters, from, to)),
{
    let to = clamp_index(to, 0, clusters.len() as int);
    let from = clamp_index(from, 0, to);
    lemma_flatten_no_line_feed(clusters);
    lemma_flatten_no_line_feed(clusters.subrange(from, to));
}

/// Putting a character other than a line feed into a text without line feeds
/// leaves it without line feeds.
pub proof fn lemma_spliced_no_line_feed(clusters: Seq<Seq<char>>, at: int, c: char)
    requires
        no_line_feed(clusters.flatten()),
        c != '\n',
    ensures
        no_line_feed(spliced(clusters, at, c)),
{
    lemma_joined_no_line_feed(clusters, 0, at);
    lemma_joined_no_line_feed(clusters, at, clusters.len() as int);
}

/// Cutting clusters out of a text without line feeds leaves it without line
/// feeds.
pub proof fn lemma_cut_no_line_feed(clusters: Seq<Seq<char>>, start: int, end: int)
    requires
        no_line_feed(clusters.flatten()),
    ensures
        no_line_feed(cut(clusters, start, end)),
{
    lemma_joined_no_line_feed(clusters, 0, clusters.len() as int);
    lemma_joined_no_line_feed(clusters, 0, start);
    lemma_joined_no_line_feed(clusters, end + 1, clusters.len() as int);
}

/// Appends `parts[from..to]`, in order, to `out`.
fn append_clusters(out: &mut String, parts: &Vec<&str>, from: usize, to: usize)
    requires
        from <= to <= parts.len(),
    ensures
        final(out)@ == old(out)@ + texts(parts@).subrange(from as int, to as int).flatten(),
{
    let ghost all = texts(parts@);
    let mut i: usize = from;
    while i < to
        invariant
            from <= i <= to <= parts.len(),
            all == texts(parts@),
            out@ == old(out)@ + all.subrange(from as int, i as int).flatten(),
        decreases to - i,
    {
        out.append(parts[i]);
        proof {
            let before = all.subrange(from as int, i as int);
            assert(all.subrange(from as int, i + 1) =~= before.push(all[i as int]));
            before.lemma_flatten_push(all[i as int]);
        }
        i = i + 1;
    }
}

/// Whether `cluster` is a single tab.
fn is_tab(cluster: &str) -> (tab: bool)
    ensures
        tab == (cluster@ == seq!['\t']),
{
    if cluster.unicode_len() == 1 {
        let tab = cluster.get_char(0) == '\t';
        assert(tab ==> cluster@ =~= seq!['\t']);
        tab
    } else {
        false
    }
}

/// The concatenation of the clusters `parts[from..to]`, the range clamped to
/// the clusters there are.
pub fn join(parts: &Vec<&str>, from: usize, to: usize) -> (out: String)
    ensures
        out@ == joined(texts(parts@), from as int, to as int),
{
    let to = if to < parts.len() {
        to
    } else {
        parts.len()
    };
    let from = if from < to {
        from
    } else {
        to
    };
    let mut out = String::new();
    append_clusters(&mut out, parts, from, to);
    out
}

/// The text of `parts` with `c` put in before cluster `at`, or at the end
/// when there is no cluster `at`.
pub fn splice(parts: &Vec<&str>, at: usize, c: char) -> (out: String)
    ensures
        out@ == spliced(texts(parts@), at as int, c),
{
    let len = parts.len();
    let at = if at < len {
        at
    } else {
        len
    };
    let mut out = String::new();
    append_clusters(&mut out, parts, 0, at);
    out.push(c);
    append_clusters(&mut out, parts, at, len);
    out
}

/// The text of `parts` without the clusters `start..=end`.
pub fn cut_out(parts: &Vec<&str>, start: usize, end: usize) -> (out: String)
    ensures
        out@ == cut(texts(parts@), start as int, end as int),
{
    let len = parts.len();
    let mut out = String::new();
    if start > end {
        append_clusters(&mut out, parts, 0, len);
    } else {
        let stop = if start < len {
            start
        } else {
            len
        };
        let resume = if end < len {
            end + 1
        } else {
            len
        };
        append_clusters(&mut out, parts, 0, stop);
        append_clusters(&mut out, parts, resume, len);
    }
    out
}

/// The displayable text of the clusters `parts[start..end]`, the range
/// clamped to the clusters there are: a tab is shown as a single space.
pub fn show(parts: &Vec<&str>, start: usize, end: usize) -> (out: String)
    ensures
        out@ == shown(texts(parts@), start as int, end as int),
{
    let end = if end < parts.len() {
        end
    } else {
        parts.len()
    };
    let start = if start < end {
        start
    } else {
        end
    };
    let ghost all = texts(parts@).map_values(|cluster: Seq<char>| displayed(cluster));
    let mut out = String::new();
    let mut i: usize = start;
    while i < end
        invariant
            start <= i <= end <= parts.len(),
            all == texts(parts@).map_values(|cluster: Seq<char>| displayed(cluster)),
            out@ == all.subrange(start as int, i as int).flatten(),
        decreases end - i,
    {
        if is_tab(parts[i]) {
            out.push(' ');
        } else {
            out.append(parts[i]);
        }
        proof {
            let before = all.subrange(start as int, i as int);
            assert(all.subrange(start as int, i + 1) =~= before.push(all[i as int]));
            before.lemma_flatten_push(all[i as int]);
        }
        i = i + 1;
    }
    proof {
        assert(texts(parts@).subrange(start as int, end as int).map_values(
            |cluster: Seq<char>| displayed(cluster),
        ) =~= all.subrange(start as int, end as int));
    }
    out
}

} // verus!
