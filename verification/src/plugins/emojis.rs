//! Emojis: find one by name or shortcode and copy it.

use vstd::prelude::*;
use vstd::string::*;
use crate::fuzzy::{any_fuzzy_match, any_matches, fuzzy_match, fuzzy_matches, texts_view};
use crate::result::{plain_result, results_view, Action, ActionView, CopyText, TUIResult, TUIResultView};
use crate::seqs::{lemma_marked_is_filter_map, lemma_marked_take, marked};
use crate::text::{is_blank, text_is_blank};

verus! {

/// One emoji of the catalog.
#[derive(Debug, Clone, PartialEq, Eq)]
pub struct EmojiEntry {
    /// The emoji itself.
    pub symbol: String,
    /// Its canonical name.
    pub name: String,
    /// The shortcodes it is known by; often one, sometimes none.
    pub shortcodes: Vec<String>,
}

/// The mathematical value of an [`EmojiEntry`].
pub struct EmojiView {
    pub symbol: Seq<char>,
    pub name: Seq<char>,
    pub shortcodes: Seq<Seq<char>>,
}

impl View for EmojiEntry {
    type V = EmojiView;

    open spec fn view(&self) -> EmojiView {
        EmojiView { symbol: self.symbol@, name: self.name@, shortcodes: texts_view(self.shortcodes@) }
    }
}

/// The values of a list of emojis, in order.
pub open spec fn catalog_view(catalog: Seq<EmojiEntry>) -> Seq<EmojiView> {
    catalog.map_values(|e: EmojiEntry| e@)
}

/// Whether `text` matches the name of `e` or one of its shortcodes.
pub open spec fn emoji_matches(e: EmojiView, text: Seq<char>) -> bool {
    fuzzy_match(e.name, text) || any_fuzzy_match(e.shortcodes, text)
}

/// The candidate that copies an emoji.
pub open spec fn emoji_result(e: EmojiView) -> TUIResultView {
    plain_result(e.symbol + " "@ + e.name, "emojis"@, ActionView::CopyText { text: e.symbol })
}

/// The candidate, if any, that `e` contributes to a search for `text`.
pub open spec fn emoji_pick(text: Seq<char>) -> spec_fn(EmojiView) -> Option<TUIResultView> {
    |e: EmojiView|
        if emoji_matches(e, text) {
            Some(emoji_result(e))
        } else {
            None
        }
}

/// What a search for `text` finds in `catalog`: nothing if `text` is blank,
/// else one candidate per matching emoji, in catalog order.
pub open spec fn emoji_results(catalog: Seq<EmojiView>, text: Seq<char>) -> Seq<TUIResultView> {
    if is_blank(text) {
        Seq::empty()
    } else {
        catalog.filter_map(emoji_pick(text))
    }
}

/// The candidate for an emoji.
pub open spec fn emoji_maker() -> spec_fn(EmojiView) -> TUIResultView {
    |e: EmojiView| emoji_result(e)
}

/// One candidate per marked emoji, in catalog order.
pub open spec fn marked_emoji_candidates(catalog: Seq<EmojiView>, marks: Seq<bool>) -> Seq<
    TUIResultView,
> {
    marked(catalog, marks).map_values(emoji_maker())
}

/// Builds one candidate per emoji whose mark is set. Emoji `i` is marked
/// when `marks[i]` exists and is true.
pub fn emojis_where(catalog: &Vec<EmojiEntry>, marks: &Vec<bool>) -> (out: Vec<TUIResult>)
    ensures
        results_view(out@) == marked_emoji_candidates(catalog_view(catalog@), marks@),
{
    let ghost all = catalog_view(catalog@);
    let mut out: Vec<TUIResult> = Vec::new();
    let mut i: usize = 0;
    assert(results_view(out@) =~= marked_emoji_candidates(all.take(0), marks@));
    while i < catalog.len()
        invariant
            i <= catalog.len(),
            all == catalog_view(catalog@),
            results_view(out@) == marked_emoji_candidates(all.take(i as int), marks@),
        decreases catalog.len() - i,
    {
        let emoji = &catalog[i];
        let ghost before = out@;
        proof {
            lemma_marked_take(all, marks@, i as int);
            assert(all[i as int] == emoji@);
        }
        if i < marks.len() && marks[i] {
            let title = emoji.symbol.clone().concat(" ").concat(emoji.name.as_str());
            let candidate = TUIResult::new(
                title.as_str(),
                "emojis",
                Action::CopyText(CopyText::new(emoji.symbol.as_str())),
            );
            out.push(candidate);
            assert(results_view(out@) =~= results_view(before).push(candidate@));
        }
        i = i + 1;
    }
    assert(all.take(i as int) =~= all);
    out
}

/// Marks the emojis whose name or shortcodes match `text`.
pub fn match_emojis(catalog: &Vec<EmojiEntry>, text: &str) -> (marks: Vec<bool>)
    ensures
        marks@.len() == catalog@.len(),
        forall|i: int|
            0 <= i < marks@.len() ==> marks@[i] == emoji_matches((#[trigger] catalog@[i])@, text@),
{
    let mut marks: Vec<bool> = Vec::new();
    let mut i: usize = 0;
    while i < catalog.len()
        invariant
            i <= catalog.len(),
            marks@.len() == i,
            forall|j: int|
                0 <= j < i ==> marks@[j] == emoji_matches((#[trigger] catalog@[j])@, text@),
        decreases catalog.len() - i,
    {
        let emoji = &catalog[i];
        marks.push(
            fuzzy_matches(emoji.name.as_str(), text) || any_matches(&emoji.shortcodes, text),
        );
        i = i + 1;
    }
    marks
}

/// Searches `catalog` for `search_text`.
pub fn find_emojis(catalog: &Vec<EmojiEntry>, search_text: &str) -> (out: Vec<TUIResult>)
    ensures
        results_view(out@) == emoji_results(catalog_view(catalog@), search_text@),
{
    if text_is_blank(search_text) {
        let out: Vec<TUIResult> = Vec::new();
        assert(results_view(out@) =~= Seq::<TUIResultView>::empty());
        return out;
    }
    let marks = match_emojis(catalog, search_text);
    proof {
        lemma_marked_is_filter_map(
            catalog_view(catalog@),
            marks@,
            emoji_maker(),
            emoji_pick(search_text@),
        );
    }
    emojis_where(catalog, &marks)
}

/// The emoji at position `index` of the built-in catalog: the table of the
/// `emojis` crate without the skin-tone variants, in table order.
pub uninterp spec fn catalog_entry(index: int) -> EmojiView;

/// The first `n` emojis of the built-in catalog.
pub open spec fn built_in_catalog(n: nat) -> Seq<EmojiView> {
    Seq::new(n, |i: int| catalog_entry(i))
}

/// Reads the emoji catalog of the `emojis` crate through `emojis::iter`, with
/// each emoji's `as_str`, `name` and `shortcodes`.
///
/// Trusted: the catalog is a constant table that is walked in table order, so
/// each position always holds the same emoji, and it is not empty: its first
/// entry has no skin tone and so passes the iterator's filter.
#[verifier::external_body]
fn emoji_catalog() -> (out: Vec<EmojiEntry>)
    ensures
        out@.len() > 0,
        forall|i: int| 0 <= i < out@.len() ==> (#[trigger] out@[i])@ == catalog_entry(i),
{
    emojis::iter().map(
        |e|
            EmojiEntry {
                symbol: e.as_str().to_string(),
                name: e.name().to_string(),
                shortcodes: e.shortcodes().map(|code| code.to_string()).collect(),
            },
    ).collect()
}

/// Answers a search text that the emoji keyword introduced, from the
/// built-in catalog, whose length is the `n` of the contract.
pub fn get_emoji_results(search_text: &str) -> (out: Vec<TUIResult>)
    ensures
        is_blank(search_text@) ==> out@.len() == 0,
        exists|n: nat|
            n > 0 && results_view(out@) == #[trigger] emoji_results(
                built_in_catalog(n),
                search_text@,
            ),
{
    let catalog = emoji_catalog();
    let out = find_emojis(&catalog, search_text);
    proof {
        let n = catalog@.len();
        assert(catalog_view(catalog@) =~= built_in_catalog(n));
        assert(results_view(out@) == emoji_results(built_in_catalog(n), search_text@));
        if is_blank(search_text@) {
            assert(results_view(out@).len() == 0);
        }
    }
    out
}

/// Every candidate of the emoji provider is in the category of emojis.
pub proof fn lemma_emoji_results_category(catalog: Seq<EmojiView>, text: Seq<char>, r: TUIResultView)
    requires
        emoji_results(catalog, text).contains(r),
    ensures
        r.category == "emojis"@,
{
    if !is_blank(text) {
        catalog.lemma_filter_map_contains(emoji_pick(text), r);
    }
}

} // verus!
