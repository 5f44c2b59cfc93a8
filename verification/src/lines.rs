//! Text as a sequence of lines: splitting on line boundaries and joining
//! lines back into text.
//!
//! A line ends at a line feed (`'\n'`). A carriage return directly before
//! that line feed belongs to the line ending. The final line need not be
//! terminated.

use crate::clusters::no_line_feed;
use vstd::prelude::*;

verus! {

/// The texts of a sequence of strings.
pub open spec fn owned_texts(strings: Seq<String>) -> Seq<Seq<char>> {
    strings.map_values(|s: String| s@)
}

/// A text that survives being written as a line and read back: it holds no
/// line feed and does not end in a carriage return.
pub open spec fn is_line(text: Seq<char>) -> bool {
    no_line_feed(text) && (text.len() == 0 || text.last() != '\r')
}

/// Index of the first line feed in `text`, or `text.len()` when there is none.
pub open spec fn first_line_feed(text: Seq<char>) -> int
    decreases text.len(),
{
    if text.len() == 0 || text[0] == '\n' {
        0
    } else {
        1 + first_line_feed(text.drop_first())
    }
}

/// `line` without one trailing carriage return.
pub open spec fn without_carriage_return(line: Seq<char>) -> Seq<char> {
    if line.len() > 0 && line.last() == '\r' {
        line.drop_last()
    } else {
        line
    }
}

/// The lines of `text`.
///
/// Each line feed ends a line; the line is what precedes the line feed, less
/// one trailing carriage return. Text after the last line feed is a final
/// line, kept as it is. The empty text has no lines.
pub open spec fn split_lines(text: Seq<char>) -> Seq<Seq<char>>
    decreases text.len(),
{
    let stop = first_line_feed(text);
    if text.len() == 0 {
        Seq::empty()
    } else if stop < 0 || stop >= text.len() {
        seq![text]
    } else {
        seq![without_carriage_return(text.take(stop))] + split_lines(text.skip(stop + 1))
    }
}

/// The text that holds each of `lines` followed by one line feed.
pub open spec fn join_lines(lines: Seq<Seq<char>>) -> Seq<char> {
    lines.map_values(|line: Seq<char>| line.push('\n')).flatten()
}

/// In `line + ['\n'] + rest`, where `line` holds no line feed, the first line
/// feed is the one after `line`.
pub proof fn lemma_first_line_feed(line: Seq<char>, rest: Seq<char>)
    requires
        no_line_feed(line),
    ensures
        first_line_feed(line.push('\n') + rest) == line.len(),
    decreases line.len(),
{
    let text = line.push('\n') + rest;
    if line.len() > 0 {
        assert(text.drop_first() =~= line.drop_first().push('\n') + rest);
        lemma_first_line_feed(line.drop_first(), rest);
    }
}

/// A text without a line feed is its own single line, unless it is empty.
pub proof fn lemma_split_unterminated(text: Seq<char>)
    requires
        no_line_feed(text),
    ensures
        first_line_feed(text) == text.len(),
        split_lines(text) == if text.len() == 0 {
            Seq::<Seq<char>>::empty()
        } else {
            seq![text]
        },
    decreases text.len(),
{
    if text.len() > 0 {
        lemma_split_unterminated(text.drop_first());
    }
}

/// Splitting `line + ['\n'] + rest`, where `line` holds no line feed, yields
/// `line` less one trailing carriage return, then the lines of `rest`.
pub proof fn lemma_split_first_line(line: Seq<char>, rest: Seq<char>)
    requires
        no_line_feed(line),
    ensures
        split_lines(line.push('\n') + rest) == seq![without_carriage_return(line)] + split_lines(
            rest,
        ),
{
    let text = line.push('\n') + rest;
    lemma_first_line_feed(line, rest);
    assert(text.take(line.len() as int) =~= line);
    assert(text.skip(line.len() as int + 1) =~= rest);
}

/// `first_line_feed` finds the first line feed: it lies within the text, no
/// line feed precedes it, and it is at a line feed unless it is at the end.
pub proof fn lemma_first_line_feed_bounds(text: Seq<char>)
    ensures
        0 <= first_line_feed(text) <= text.len(),
        no_line_feed(text.take(first_line_feed(text))),
        first_line_feed(text) < text.len() ==> text[first_line_feed(text)] == '\n',
    decreases text.len(),
{
    if text.len() > 0 && text[0] != '\n' {
        let rest = text.drop_first();
        lemma_first_line_feed_bounds(rest);
        let stop = first_line_feed(rest);
        let prefix = text.take(stop + 1);
        assert forall|i: int| 0 <= i < prefix.len() implies #[trigger] prefix[i] != '\n' by {
            if i > 0 {
                assert(prefix[i] == rest.take(stop)[i - 1]);
            }
        }
    }
}

/// No line of a text holds a line feed.
pub proof fn lemma_split_lines_no_line_feed(text: Seq<char>)
    ensures
        forall|i: int|
            0 <= i < split_lines(text).len() ==> no_line_feed(#[trigger] split_lines(text)[i]),
    decreases text.len(),
{
    let stop = first_line_feed(text);
    lemma_first_line_feed_bounds(text);
    if text.len() > 0 && stop >= text.len() {
        assert(text.take(stop) =~= text);
    } else if text.len() > 0 {
        let rest = text.skip(stop + 1);
        lemma_split_lines_no_line_feed(rest);
        assert forall|i: int| 0 <= i < split_lines(text).len() implies no_line_feed(
            #[trigger] split_lines(text)[i],
        ) by {
            if i > 0 {
                assert(split_lines(text)[i] == split_lines(rest)[i - 1]);
            }
        }
    }
}

/// Joining lines that hold no line feed and splitting the result gives each
/// line back, less one trailing carriage return.
pub proof fn lemma_split_join_any(lines: Seq<Seq<char>>)
    requires
        forall|i: int| 0 <= i < lines.len() ==> no_line_feed(#[trigger] lines[i]),
    ensures
        split_lines(join_lines(lines)) == lines.map_values(
            |line: Seq<char>| without_carriage_return(line),
        ),
    decreases lines.len(),
{
    let terminated = lines.map_values(|line: Seq<char>| line.push('\n'));
    if lines.len() > 0 {
        let rest = lines.drop_first();
        assert(terminated.drop_first() =~= rest.map_values(|line: Seq<char>| line.push('\n')));
        lemma_split_join_any(rest);
        lemma_split_first_line(lines[0], join_lines(rest));
    }
}

/// Joining lines and splitting the result gives the lines back.
pub proof fn lemma_split_join(lines: Seq<Seq<char>>)
    requires
        forall|i: int| 0 <= i < lines.len() ==> is_line(#[trigger] lines[i]),
    ensures
        split_lines(join_lines(lines)) == lines,
{
    lemma_split_join_any(lines);
}

/// Writing the lines of a text out and reading them back gives the same
/// lines, provided none of them ends in a carriage return.
pub proof fn lemma_round_trip(text: Seq<char>)
    requires
        forall|i: int|
            0 <= i < split_lines(text).len() ==> {
                let line = #[trigger] split_lines(text)[i];
                line.len() == 0 || line.last() != '\r'
            },
    ensures
        split_lines(join_lines(split_lines(text))) == split_lines(text),
{
    lemma_split_lines_no_line_feed(text);
    lemma_split_join(split_lines(text));
}

/// Splits `content` into its lines.
pub fn lines_of(content: &str) -> (lines: Vec<String>)
    ensures
        owned_texts(lines@) == split_lines(content@),
{
    broadcast use vstd::string::group_string_axioms;

    let mut lines: Vec<String> = Vec::new();
    let mut current = String::new();
    let mut pending_cr = false;
    let ghost text = content@;
    assert(Seq::<char>::empty() + text.skip(0) =~= text);
    for c in it: content.chars()
        invariant
            it.seq() == text,
            no_line_feed(current@),
            !pending_cr ==> (current@.len() == 0 || current@.last() != '\r'),
            split_lines(text) == owned_texts(lines@) + split_lines(
                (if pending_cr {
                    current@.push('\r')
                } else {
                    current@
                }) + text.skip(it.index()),
            ),
    {
        let ghost line = if pending_cr {
            current@.push('\r')
        } else {
            current@
        };
        let ghost rest = text.skip(it.index() + 1);
        if c == '\n' {
            proof {
                assert(line + text.skip(it.index()) =~= line.push('\n') + rest);
                lemma_split_first_line(line, rest);
                assert(without_carriage_return(line) =~= current@);
            }
            lines.push(current);
            current = String::new();
            pending_cr = false;
        } else if c == '\r' {
            if pending_cr {
                current.push('\r');
            }
            pending_cr = true;
            proof {
                assert(line + text.skip(it.index()) =~= current@.push('\r') + rest);
            }
        } else {
            if pending_cr {
                current.push('\r');
            }
            current.push(c);
            pending_cr = false;
            proof {
                assert(line + text.skip(it.index()) =~= current@ + rest);
            }
        }
    }
    if pending_cr {
        current.push('\r');
    }
    proof {
        lemma_split_unterminated(current@);
    }
    if !current.as_str().is_empty() {
        lines.push(current);
    }
    lines
}

} // verus!
