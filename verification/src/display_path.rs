//! Shortening a path for display, counting user-perceived characters (grapheme clusters).
use vstd::prelude::*;
use unicode_segmentation::UnicodeSegmentation;

verus! {

/// The longest path, in grapheme clusters, that is displayed in full.
pub const DISPLAY_PATH_LENGTH: usize = 40;

/// The extended grapheme clusters of a text, as `UnicodeSegmentation::graphemes` splits it.
pub uninterp spec fn grapheme_clusters(text: Seq<char>) -> Seq<Seq<char>>;

/// The text of each string.
pub open spec fn texts(strings: Seq<String>) -> Seq<Seq<char>> {
    strings.map_values(|s: String| s@)
}

/// Splits a text into its extended grapheme clusters with `UnicodeSegmentation::graphemes(text, true)`.
/// The clusters are pieces of the text, in order, so that together they make up the whole text.
#[verifier::external_body]
fn graphemes(text: &str) -> (r: Vec<String>)
    ensures
        texts(r@) == grapheme_clusters(text@),
        texts(r@).flatten() == text@,
{
    text.graphemes(true).map(|cluster| cluster.to_owned()).collect()
}

/// The displayed form of a text split into the given clusters: the text itself when it has fewer than
/// [`DISPLAY_PATH_LENGTH`] clusters, otherwise `...` followed by its last [`DISPLAY_PATH_LENGTH`] clusters.
pub open spec fn shortened(text: Seq<char>, clusters: Seq<Seq<char>>) -> Seq<char> {
    if clusters.len() < DISPLAY_PATH_LENGTH {
        text
    } else {
        "..."@ + clusters.skip(clusters.len() - DISPLAY_PATH_LENGTH).flatten()
    }
}

/// Shortens a displayed path that is split into the given grapheme clusters (see [`shortened`]).
pub fn shorten_display_path(display: String, graphemes: &Vec<String>) -> (r: String)
    ensures
        r@ == shortened(display@, texts(graphemes@)),
{
    let count = graphemes.len();
    if count < DISPLAY_PATH_LENGTH {
        return display;
    }
    let start = count - DISPLAY_PATH_LENGTH;
    let ghost clusters = texts(graphemes@);
    let mut result = String::from_str("...");
    let mut i = start;
    while i < count
        invariant
            start <= i <= count,
            count == graphemes@.len(),
            clusters == texts(graphemes@),
            result@ == "..."@ + clusters.subrange(start as int, i as int).flatten(),
        decreases count - i,
    {
        proof {
            assert(clusters.subrange(start as int, i + 1) == clusters.subrange(start as int, i as int).push(
                clusters[i as int],
            ));
            clusters.subrange(start as int, i as int).lemma_flatten_push(clusters[i as int]);
        }
        result.append(graphemes[i].as_str());
        i = i + 1;
    }
    proof {
        assert(clusters.subrange(start as int, count as int) == clusters.skip(count - DISPLAY_PATH_LENGTH));
    }
    result
}

/// If a path is shorter than 40 characters the full path is returned as a string.
/// Otherwise, the last 40 characters of the path are returned prefixed with "...".
///
/// The path is given as it is displayed; characters are counted as grapheme clusters.
pub fn get_display_path(display: &str) -> (r: String)
    ensures
        r@ == shortened(display@, grapheme_clusters(display@)),
        grapheme_clusters(display@).flatten() == display@,
{
    let clusters = graphemes(display);
    shorten_display_path(display.to_owned(), &clusters)
}

/// A shortened path is `...` followed by the end of the path: what is displayed after the dots
/// is a suffix of the path.
pub proof fn law_shortened_is_suffix(text: Seq<char>, clusters: Seq<Seq<char>>)
    requires
        clusters.flatten() == text,
        clusters.len() >= DISPLAY_PATH_LENGTH,
    ensures
        exists|k: int|
            0 <= k <= text.len() && #[trigger] shortened(text, clusters) == "..."@ + text.skip(k),
{
    let n = clusters.len() - DISPLAY_PATH_LENGTH;
    let head = clusters.take(n);
    let tail = clusters.skip(n);
    assert(clusters == head + tail);
    vstd::seq_lib::lemma_flatten_concat(head, tail);
    let k = head.flatten().len() as int;
    assert(text.skip(k) == tail.flatten());
    assert(shortened(text, clusters) == "..."@ + text.skip(k));
}

} // verus!
