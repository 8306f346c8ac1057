//! Fuzzy matching, as the `sniffer-rs` crate decides it.

use vstd::prelude::*;
use sniffer_rs::sniffer::Sniffer;

verus! {

/// Whether `search` fuzzily matches `candidate`.
///
/// This is the verdict of a `Sniffer` in its default configuration. It rests
/// on edit distances and on a similarity score computed in floating point, so
/// it is named here rather than defined.
pub uninterp spec fn fuzzy_match(candidate: Seq<char>, search: Seq<char>) -> bool;

/// Calls `Sniffer::new().matches(candidate, search)`.
///
/// Trusted: `Sniffer::new` builds a fixed configuration and `matches` reads
/// nothing but that configuration and its two arguments, so the answer depends
/// on the two texts alone. It does not panic: the one panicking helper it
/// uses is called only on texts of equal length.
#[verifier::external_body]
pub(crate) fn fuzzy_matches(candidate: &str, search: &str) -> (b: bool)
    ensures
        b == fuzzy_match(candidate@, search@),
{
    Sniffer::new().matches(candidate, search)
}

/// The values of a list of texts, in order.
pub open spec fn texts_view(texts: Seq<String>) -> Seq<Seq<char>> {
    texts.map_values(|t: String| t@)
}

/// Whether `search` fuzzily matches one of `candidates`.
pub open spec fn any_fuzzy_match(candidates: Seq<Seq<char>>, search: Seq<char>) -> bool {
    exists|i: int| 0 <= i < candidates.len() && fuzzy_match(#[trigger] candidates[i], search)
}

/// Tells whether `search` fuzzily matches one of `candidates`.
pub fn any_matches(candidates: &Vec<String>, search: &str) -> (b: bool)
    ensures
        b == any_fuzzy_match(texts_view(candidates@), search@),
{
    let mut i: usize = 0;
    while i < candidates.len()
        invariant
            i <= candidates.len(),
            forall|j: int| 0 <= j < i ==> !fuzzy_match(#[trigger] texts_view(candidates@)[j], search@),
        decreases candidates.len() - i,
    {
        if fuzzy_matches(candidates[i].as_str(), search) {
            assert(fuzzy_match(texts_view(candidates@)[i as int], search@));
            return true;
        }
        i = i + 1;
    }
    false
}

} // verus!
