//! Bookmarks: open one, add one, remove one.

use vstd::prelude::*;
use vstd::string::*;
use crate::config::{bookmarks_view, BookmarkConfig, BookmarkView, Config};
use crate::fuzzy::{fuzzy_match, fuzzy_matches};
use crate::query::{parse, parsed, QueryError};
use crate::seqs::{lemma_marked_is_filter_map, lemma_marked_take, marked};
use crate::result::{
    results_view, Action, ActionView, AddBookmark, Bookmark, OpenURL, RemoveBookmark, TUIResult,
    TUIResultView,
};
use crate::text::{
    chars_of, find_first_space, find_last_space, first_space, last_space, lemma_first_space,
    lemma_last_space, same_text,
};

verus! {

/// The name in an "add" command: what stands between its first and its last
/// space. Empty when the command holds fewer than two spaces.
pub open spec fn added_name(text: Seq<char>) -> Seq<char> {
    if first_space(text) < last_space(text) {
        text.subrange(first_space(text) + 1, last_space(text))
    } else {
        Seq::empty()
    }
}

/// The address in an "add" command: what stands behind its last space. Empty
/// when the command holds fewer than two spaces.
pub open spec fn added_url(text: Seq<char>) -> Seq<char> {
    if first_space(text) < last_space(text) {
        text.subrange(last_space(text) + 1, text.len() as int)
    } else {
        Seq::empty()
    }
}

/// The candidate that opens a bookmark.
pub open spec fn open_bookmark_result(b: BookmarkView) -> TUIResultView {
    TUIResultView {
        title: b.name,
        category: "bookmarks"@,
        secondary_text: Some(b.url),
        icon_path: None,
        action: ActionView::OpenURL { url: b.url },
    }
}

/// The candidate that removes a bookmark.
pub open spec fn remove_bookmark_result(b: BookmarkView) -> TUIResultView {
    TUIResultView {
        title: "Remove "@ + b.name,
        category: "bookmarks"@,
        secondary_text: Some(b.url),
        icon_path: None,
        action: ActionView::RemoveBookmark { id: b.id },
    }
}

/// The candidate that stores a new bookmark.
pub open spec fn add_bookmark_result(name: Seq<char>, url: Seq<char>) -> TUIResultView {
    TUIResultView {
        title: "Add: "@ + name,
        category: "bookmarks"@,
        secondary_text: Some("URL: "@ + url),
        icon_path: None,
        action: ActionView::AddBookmark { name, url },
    }
}

/// The candidate, if any, that `b` contributes to a search for `text`: one
/// that removes it if `remove` holds, else one that opens it.
pub open spec fn bookmark_pick(text: Seq<char>, remove: bool) -> spec_fn(BookmarkView) -> Option<
    TUIResultView,
> {
    |b: BookmarkView|
        if !fuzzy_match(b.name, text) {
            None
        } else if remove {
            Some(remove_bookmark_result(b))
        } else {
            Some(open_bookmark_result(b))
        }
}

/// One candidate per bookmark whose name matches `text`, in stored order.
pub open spec fn bookmark_candidates(
    bookmarks: Seq<BookmarkView>,
    text: Seq<char>,
    remove: bool,
) -> Seq<TUIResultView> {
    bookmarks.filter_map(bookmark_pick(text, remove))
}

/// Whether `keyword` asks to add a bookmark.
pub open spec fn is_add_keyword(keyword: Option<Seq<char>>) -> bool {
    keyword == Some("a"@) || keyword == Some("add"@)
}

/// Whether `keyword` asks to remove a bookmark.
pub open spec fn is_remove_keyword(keyword: Option<Seq<char>>) -> bool {
    keyword == Some("r"@) || keyword == Some("remove"@)
}

/// What the bookmarks provider answers to a non-empty `text`.
///
/// The text is parsed once more. With the keyword `a` or `add` the answer is
/// one candidate that adds the bookmark the text describes. With `r` or
/// `remove` it is one candidate per bookmark that matches what follows the
/// keyword, each removing its bookmark. Otherwise it is one candidate per
/// bookmark that matches the whole text, each opening its bookmark.
pub open spec fn bookmarks_results(bookmarks: Seq<BookmarkView>, text: Seq<char>) -> Seq<
    TUIResultView,
> {
    let q = parsed(text);
    if is_add_keyword(q.keyword) {
        seq![add_bookmark_result(added_name(text), added_url(text))]
    } else if is_remove_keyword(q.keyword) {
        bookmark_candidates(bookmarks, q.query, true)
    } else {
        bookmark_candidates(bookmarks, text, false)
    }
}

/// Reads the name and the address out of an "add" command.
pub fn parse_addition(text: &str) -> (res: (String, String))
    ensures
        res.0@ == added_name(text@),
        res.1@ == added_url(text@),
{
    let chars = chars_of(text);
    let first = find_first_space(&chars);
    proof {
        lemma_first_space(text@);
        lemma_last_space(text@);
    }
    match find_last_space(&chars) {
        Some(last) => {
            if first < last {
                let name = String::from_str(text.substring_char(first + 1, last));
                let url = String::from_str(text.substring_char(last + 1, chars.len()));
                (name, url)
            } else {
                (String::new(), String::new())
            }
        },
        None => (String::new(), String::new()),
    }
}

/// Builds the candidate that opens or removes `bookmark`.
fn bookmark_candidate(bookmark: &BookmarkConfig, remove: bool) -> (r: TUIResult)
    ensures
        r@ == if remove {
            remove_bookmark_result(bookmark@)
        } else {
            open_bookmark_result(bookmark@)
        },
{
    if remove {
        let title = String::from_str("Remove ").concat(bookmark.name.as_str());
        TUIResult::new(
            title.as_str(),
            "bookmarks",
            Action::Bookmark(Bookmark::Remove(RemoveBookmark { id: bookmark.id })),
        ).set_secondary_text(bookmark.url.as_str())
    } else {
        TUIResult::new(
            bookmark.name.as_str(),
            "bookmarks",
            Action::OpenURL(OpenURL::new(bookmark.url.as_str())),
        ).set_secondary_text(bookmark.url.as_str())
    }
}

/// The candidate for a bookmark: one that removes it if `remove` holds, else
/// one that opens it.
pub open spec fn bookmark_maker(remove: bool) -> spec_fn(BookmarkView) -> TUIResultView {
    |b: BookmarkView|
        if remove {
            remove_bookmark_result(b)
        } else {
            open_bookmark_result(b)
        }
}

/// One candidate per marked bookmark, in stored order.
pub open spec fn marked_bookmark_candidates(
    bookmarks: Seq<BookmarkView>,
    marks: Seq<bool>,
    remove: bool,
) -> Seq<TUIResultView> {
    marked(bookmarks, marks).map_values(bookmark_maker(remove))
}

/// Builds one candidate per bookmark whose mark is set. Bookmark `i` is
/// marked when `marks[i]` exists and is true.
pub fn bookmarks_where(bookmarks: &Vec<BookmarkConfig>, marks: &Vec<bool>, remove: bool) -> (out:
    Vec<TUIResult>)
    ensures
        results_view(out@) == marked_bookmark_candidates(
            bookmarks_view(bookmarks@),
            marks@,
            remove,
        ),
{
    let ghost all = bookmarks_view(bookmarks@);
    let mut out: Vec<TUIResult> = Vec::new();
    let mut i: usize = 0;
    assert(results_view(out@) =~= marked_bookmark_candidates(all.take(0), marks@, remove));
    while i < bookmarks.len()
        invariant
            i <= bookmarks.len(),
            all == bookmarks_view(bookmarks@),
            results_view(out@) == marked_bookmark_candidates(all.take(i as int), marks@, remove),
        decreases bookmarks.len() - i,
    {
        let ghost before = out@;
        proof {
            lemma_marked_take(all, marks@, i as int);
            assert(all[i as int] == bookmarks@[i as int]@);
        }
        if i < marks.len() && marks[i] {
            let candidate = bookmark_candidate(&bookmarks[i], remove);
            out.push(candidate);
            assert(results_view(out@) =~= results_view(before).push(candidate@));
        }
        i = i + 1;
    }
    assert(all.take(i as int) =~= all);
    out
}

/// Marks the bookmarks whose name matches `text`.
pub fn match_bookmarks(bookmarks: &Vec<BookmarkConfig>, text: &str) -> (marks: Vec<bool>)
    ensures
        marks@.len() == bookmarks@.len(),
        forall|i: int|
            0 <= i < marks@.len() ==> marks@[i] == fuzzy_match(
                (#[trigger] bookmarks@[i]).name@,
                text@,
            ),
{
    let mut marks: Vec<bool> = Vec::new();
    let mut i: usize = 0;
    while i < bookmarks.len()
        invariant
            i <= bookmarks.len(),
            marks@.len() == i,
            forall|j: int|
                0 <= j < i ==> marks@[j] == fuzzy_match((#[trigger] bookmarks@[j]).name@, text@),
        decreases bookmarks.len() - i,
    {
        marks.push(fuzzy_matches(bookmarks[i].name.as_str(), text));
        i = i + 1;
    }
    marks
}

/// Collects one candidate per bookmark whose name matches `text`.
pub fn collect_bookmarks(bookmarks: &Vec<BookmarkConfig>, text: &str, remove: bool) -> (out: Vec<
    TUIResult,
>)
    ensures
        results_view(out@) == bookmark_candidates(bookmarks_view(bookmarks@), text@, remove),
{
    let marks = match_bookmarks(bookmarks, text);
    proof {
        lemma_marked_is_filter_map(
            bookmarks_view(bookmarks@),
            marks@,
            bookmark_maker(remove),
            bookmark_pick(text@, remove),
        );
    }
    bookmarks_where(bookmarks, &marks, remove)
}

/// Answers a search text that the bookmarks keyword introduced.
///
/// Fails on the empty text and on no other.
pub fn get_bookmarks_results(config: &Config, search_text: &str) -> (res: Result<
    Vec<TUIResult>,
    QueryError,
>)
    ensures
        match res {
            Ok(out) => search_text@.len() > 0 && results_view(out@) == bookmarks_results(
                config@.bookmarks,
                search_text@,
            ),
            Err(e) => search_text@.len() == 0 && e == QueryError::Empty,
        },
{
    let query = match parse(search_text) {
        Ok(query) => query,
        Err(e) => {
            return Err(e);
        },
    };
    match &query.keyword {
        Some(keyword) => {
            if same_text(keyword.as_str(), "a") || same_text(keyword.as_str(), "add") {
                let (name, url) = parse_addition(search_text);
                let title = String::from_str("Add: ").concat(name.as_str());
                let secondary = String::from_str("URL: ").concat(url.as_str());
                let candidate = TUIResult::new(
                    title.as_str(),
                    "bookmarks",
                    Action::Bookmark(Bookmark::Add(AddBookmark { name, url })),
                ).set_secondary_text(secondary.as_str());
                let mut out: Vec<TUIResult> = Vec::new();
                out.push(candidate);
                proof {
                    assert(results_view(out@) =~= seq![candidate@]);
                }
                return Ok(out);
            }
            if same_text(keyword.as_str(), "r") || same_text(keyword.as_str(), "remove") {
                return Ok(collect_bookmarks(&config.bookmarks, query.query.as_str(), true));
            }
        },
        None => {},
    }
    Ok(collect_bookmarks(&config.bookmarks, search_text, false))
}

/// Why a change to the bookmarks was not made.
#[derive(Debug, Clone, Copy, PartialEq, Eq, Structural)]
pub enum BookmarkError {
    /// A bookmark already has the largest id there is.
    IdsExhausted,
}

/// The largest id among `bookmarks`, or 0 if there are none.
pub open spec fn max_id(bookmarks: Seq<BookmarkView>) -> int
    decreases bookmarks.len(),
{
    if bookmarks.len() == 0 {
        0
    } else if bookmarks.last().id > max_id(bookmarks.drop_last()) {
        bookmarks.last().id as int
    } else {
        max_id(bookmarks.drop_last())
    }
}

/// The bookmarks other than those with the id `id`.
pub open spec fn keep_other_ids(id: u64) -> spec_fn(BookmarkView) -> Option<BookmarkView> {
    |b: BookmarkView|
        if b.id != id {
            Some(b)
        } else {
            None
        }
}

/// The bookmarks after `action` is carried out.
///
/// An added bookmark goes to the end, with an id one above the largest in
/// use. A removal takes out every bookmark with the given id and keeps the
/// order of the others.
pub open spec fn updated_bookmarks(bookmarks: Seq<BookmarkView>, action: ActionView) -> Seq<
    BookmarkView,
> {
    match action {
        ActionView::AddBookmark { name, url } => bookmarks.push(
            BookmarkView { id: (max_id(bookmarks) + 1) as u64, name, url },
        ),
        ActionView::RemoveBookmark { id } => bookmarks.filter_map(keep_other_ids(id)),
        _ => bookmarks,
    }
}

/// Finds the largest id in use.
fn largest_id(bookmarks: &Vec<BookmarkConfig>) -> (id: u64)
    ensures
        id == max_id(bookmarks_view(bookmarks@)),
{
    let ghost all = bookmarks_view(bookmarks@);
    let mut id: u64 = 0;
    let mut i: usize = 0;
    assert(all.take(0) =~= Seq::<BookmarkView>::empty());
    while i < bookmarks.len()
        invariant
            i <= bookmarks.len(),
            all == bookmarks_view(bookmarks@),
            id == max_id(all.take(i as int)),
        decreases bookmarks.len() - i,
    {
        assert(all.take(i + 1).drop_last() =~= all.take(i as int));
        assert(all.take(i + 1).last() == bookmarks@[i as int]@);
        if bookmarks[i].id > id {
            id = bookmarks[i].id;
        }
        i = i + 1;
    }
    assert(all.take(i as int) =~= all);
    id
}

/// Carries out a bookmark action on the stored bookmarks.
///
/// Fails, and changes nothing, only when a bookmark is to be added and the
/// largest id is already in use.
pub fn on_bookmark_action(bookmark: &Bookmark, bookmarks: &mut Vec<BookmarkConfig>) -> (res: Result<
    (),
    BookmarkError,
>)
    ensures
        res is Err <==> *bookmark is Add && max_id(bookmarks_view(old(bookmarks)@)) == u64::MAX,
        res is Err ==> final(bookmarks)@ == old(bookmarks)@,
        res is Ok ==> bookmarks_view(final(bookmarks)@) == updated_bookmarks(
            bookmarks_view(old(bookmarks)@),
            Action::Bookmark(*bookmark)@,
        ),
{
    let ghost all = bookmarks_view(bookmarks@);
    match bookmark {
        Bookmark::Add(add) => {
            let last_id = largest_id(bookmarks);
            if last_id == u64::MAX {
                return Err(BookmarkError::IdsExhausted);
            }
            let added = BookmarkConfig {
                id: last_id + 1,
                name: add.name.clone(),
                url: add.url.clone(),
            };
            bookmarks.push(added);
            assert(bookmarks_view(bookmarks@) =~= all.push(added@));
        },
        Bookmark::Remove(remove) => {
            let mut kept: Vec<BookmarkConfig> = Vec::new();
            let mut i: usize = 0;
            assert(bookmarks_view(kept@) =~= all.take(0).filter_map(keep_other_ids(remove.id)));
            while i < bookmarks.len()
                invariant
                    i <= bookmarks.len(),
                    all == bookmarks_view(bookmarks@),
                    bookmarks_view(kept@) == all.take(i as int).filter_map(
                        keep_other_ids(remove.id),
                    ),
                decreases bookmarks.len() - i,
            {
                let ghost before = kept@;
                proof {
                    all.lemma_filter_map_take_succ(keep_other_ids(remove.id), i as int);
                    assert(all[i as int] == bookmarks@[i as int]@);
                }
                if bookmarks[i].id != remove.id {
                    let copy = BookmarkConfig {
                        id: bookmarks[i].id,
                        name: bookmarks[i].name.clone(),
                        url: bookmarks[i].url.clone(),
                    };
                    kept.push(copy);
                    assert(bookmarks_view(kept@) =~= bookmarks_view(before) + seq![copy@]);
                }
                i = i + 1;
            }
            assert(all.take(i as int) =~= all);
            *bookmarks = kept;
        },
    }
    Ok(())
}

/// Every candidate of the bookmarks provider is in the category of bookmarks.
pub proof fn lemma_bookmarks_results_category(
    bookmarks: Seq<BookmarkView>,
    text: Seq<char>,
    r: TUIResultView,
)
    requires
        bookmarks_results(bookmarks, text).contains(r),
    ensures
        r.category == "bookmarks"@,
{
    let q = parsed(text);
    if is_add_keyword(q.keyword) {
    } else if is_remove_keyword(q.keyword) {
        bookmarks.lemma_filter_map_contains(bookmark_pick(q.query, true), r);
    } else {
        bookmarks.lemma_filter_map_contains(bookmark_pick(text, false), r);
    }
}

} // verus!
