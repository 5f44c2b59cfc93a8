//! Grapheme-cluster segmentation of text.
//!
//! Column indices throughout the crate count extended grapheme clusters. The
//! segmentation itself is delegated to the `unicode-segmentation` crate; this
//! module names its result and states the structural facts the rest of the
//! crate relies on.

use crate::clusters::texts;
use unicode_segmentation::UnicodeSegmentation;
use vstd::prelude::*;

verus! {

/// The extended grapheme clusters of `text`, in order.
///
/// This is the sequence that `UnicodeSegmentation::graphemes(text, true)`
/// yields. The boundary rules are those of Unicode Standard Annex #29 and
/// are not restated here.
pub uninterp spec fn grapheme_clusters(text: Seq<char>) -> Seq<Seq<char>>;

/// `parts` cuts `text` into consecutive, non-empty pieces.
pub open spec fn is_partition(parts: Seq<Seq<char>>, text: Seq<char>) -> bool {
    &&& parts.flatten() == text
    &&& forall|i: int| 0 <= i < parts.len() ==> (#[trigger] parts[i]).len() > 0
}

/// The grapheme clusters of `text` form a partition of `text`.
///
/// This holds of every text; it is learnt for a given text by segmenting it.
pub open spec fn well_segmented(text: Seq<char>) -> bool {
    is_partition(grapheme_clusters(text), text)
}

/// Number of grapheme clusters in `text`.
pub open spec fn grapheme_len(text: Seq<char>) -> nat {
    grapheme_clusters(text).len()
}

/// Only the empty sequence of parts partitions the empty text.
pub proof fn lemma_partition_of_empty(parts: Seq<Seq<char>>)
    requires
        is_partition(parts, Seq::<char>::empty()),
    ensures
        parts.len() == 0,
{
    if parts.len() > 0 {
        assert(parts.flatten() == parts.first() + parts.drop_first().flatten());
    }
}

/// Splits `text` into its extended grapheme clusters.
///
/// Trusted: calls `UnicodeSegmentation::graphemes(text, true)` and collects the
/// yielded slices. The contract claims that the result is the
/// named segmentation of `text`, that the clusters concatenate to `text`, and
/// that no cluster is empty: the iterator hands out consecutive slices
/// `text[start..next]` with `next > start` until the text is used up.
#[verifier::external_body]
pub(crate) fn graphemes(text: &str) -> (parts: Vec<&str>)
    ensures
        texts(parts@) == grapheme_clusters(text@),
        is_partition(texts(parts@), text@),
{
    text.graphemes(true).collect()
}

} // verus!
