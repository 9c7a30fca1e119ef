use vstd::prelude::*;

use unicode_segmentation::UnicodeSegmentation;

verus! {

/// The extended grapheme clusters of a text (UAX #29), as `unicode_segmentation`
/// computes them.
pub uninterp spec fn grapheme_clusters(text: Seq<char>) -> Seq<Seq<char>>;

/// The number of UAX #29 words (segments holding an alphabetic or numeric character)
/// that `unicode_segmentation` finds in a text.
pub uninterp spec fn unicode_word_count(text: Seq<char>) -> nat;

/// Calls `UnicodeSegmentation::graphemes(text, true)`. The contract names the clusters
/// `grapheme_clusters` and claims what the crate's iterator does: it yields consecutive,
/// non-empty slices of the text from its start to its end.
#[verifier::external_body]
pub(crate) fn graphemes(text: &str) -> (clusters: Vec<String>)
    ensures
        clusters@.map_values(|cluster: String| cluster@) == grapheme_clusters(text@),
        clusters@.map_values(|cluster: String| cluster@).flatten() == text@,
        forall|i: int| 0 <= i < clusters@.len() ==> (#[trigger] clusters@[i])@.len() > 0,
{
    text.graphemes(true).map(|cluster| cluster.to_owned()).collect()
}

/// Calls `UnicodeSegmentation::graphemes(text, true)` and counts the clusters; the crate's
/// iterator yields at least one cluster exactly when the text is not empty.
#[verifier::external_body]
pub(crate) fn grapheme_count(text: &str) -> (count: usize)
    ensures
        count == grapheme_clusters(text@).len(),
        count == 0 <==> text@.len() == 0,
{
    text.graphemes(true).count()
}

/// Calls `UnicodeSegmentation::unicode_words(text)` and counts the words.
#[verifier::external_body]
pub(crate) fn count_unicode_words(text: &str) -> (count: usize)
    ensures
        count == unicode_word_count(text@),
{
    text.unicode_words().count()
}

} // verus!
