//! The query grammar: an optional keyword, then the text it applies to.

use vstd::prelude::*;
use vstd::string::*;
use crate::text::{
    blank_len, chars_of, has_whitespace, is_whitespace, lemma_blank_len, lemma_token_len,
    lemma_token_len_prefix, scan_blank, scan_token, token_len,
};

verus! {

/// Why a text could not be parsed.
#[derive(Debug, Clone, Copy, PartialEq, Eq, Structural)]
pub enum QueryError {
    /// The text holds no character at all.
    Empty,
}

impl QueryError {
    /// The error in words.
    pub open spec fn text(self) -> Seq<char> {
        match self {
            QueryError::Empty => "the search text is empty"@,
        }
    }

    /// The error in words, for display.
    pub fn message(&self) -> (s: String)
        ensures
            s@ == self.text(),
    {
        match self {
            QueryError::Empty => String::from_str("the search text is empty"),
        }
    }
}

/// A parsed search text.
#[derive(Debug, Clone, PartialEq, Eq)]
pub struct Query {
    /// The first token, present when the text holds whitespace.
    pub keyword: Option<String>,
    /// What follows the keyword and the whitespace behind it; the whole text
    /// when there is no keyword.
    pub query: String,
    /// The text as it was typed.
    pub full_text: String,
}

/// The mathematical value of a [`Query`].
pub struct QueryView {
    pub keyword: Option<Seq<char>>,
    pub query: Seq<char>,
    pub full_text: Seq<char>,
}

impl View for Query {
    type V = QueryView;

    open spec fn view(&self) -> QueryView {
        QueryView {
            keyword: match self.keyword {
                Some(k) => Some(k@),
                None => None,
            },
            query: self.query@,
            full_text: self.full_text@,
        }
    }
}

/// The query that a non-empty text stands for.
///
/// The text is cut at its first run of whitespace. What stands before the run
/// is the keyword, what stands behind it is the query. A text without
/// whitespace has no keyword and is the query as a whole.
pub open spec fn parsed(raw: Seq<char>) -> QueryView {
    let k = token_len(raw) as int;
    if k == raw.len() {
        QueryView { keyword: None, query: raw, full_text: raw }
    } else {
        let rest = raw.skip(k);
        QueryView {
            keyword: Some(raw.take(k)),
            query: rest.skip(blank_len(rest) as int),
            full_text: raw,
        }
    }
}

/// What parsing `raw` gives: an error for the empty text, else its query.
pub open spec fn parse_spec(raw: Seq<char>) -> Result<QueryView, QueryError> {
    if raw.len() == 0 {
        Err(QueryError::Empty)
    } else {
        Ok(parsed(raw))
    }
}

/// Parses a search text.
pub fn parse(raw: &str) -> (res: Result<Query, QueryError>)
    ensures
        match res {
            Ok(q) => parse_spec(raw@) == Ok::<QueryView, QueryError>(q@),
            Err(e) => parse_spec(raw@) == Err::<QueryView, QueryError>(e),
        },
{
    let chars = chars_of(raw);
    let n = chars.len();
    if n == 0 {
        return Err(QueryError::Empty);
    }
    let k = scan_token(&chars, 0);
    assert(chars@.skip(0) =~= chars@);
    if k == n {
        return Ok(Query { keyword: None, query: String::from_str(raw), full_text: String::from_str(raw) });
    }
    let j = scan_blank(&chars, k);
    let keyword = String::from_str(raw.substring_char(0, k));
    let query = String::from_str(raw.substring_char(j, n));
    proof {
        let rest = raw@.skip(k as int);
        assert(raw@.take(k as int) =~= raw@.subrange(0, k as int));
        assert(rest.skip(blank_len(rest) as int) =~= raw@.subrange(j as int, n as int));
    }
    Ok(Query { keyword: Some(keyword), query, full_text: String::from_str(raw) })
}

impl Query {
    /// A copy of the text behind the keyword.
    pub fn get_query(&self) -> (q: String)
        ensures
            q@ == self@.query,
    {
        self.query.clone()
    }
}

/// A text without whitespace has no keyword and is its own query. Parsing
/// it succeeds unless it is empty.
pub proof fn lemma_parse_without_whitespace(raw: Seq<char>)
    requires
        !has_whitespace(raw),
    ensures
        parsed(raw) == (QueryView { keyword: None, query: raw, full_text: raw }),
        raw.len() > 0 ==> parse_spec(raw) == Ok::<QueryView, QueryError>(parsed(raw)),
{
    lemma_token_len(raw);
}

/// A keyword without whitespace, a space and a rest parse into that keyword
/// and the rest without its leading whitespace. The typed text is kept whole.
pub proof fn lemma_parse_keyword_and_rest(keyword: Seq<char>, rest: Seq<char>)
    requires
        !has_whitespace(keyword),
    ensures
        parse_spec(keyword + seq![' '] + rest) == Ok::<QueryView, QueryError>(
            QueryView {
                keyword: Some(keyword),
                query: rest.skip(blank_len(rest) as int),
                full_text: keyword + seq![' '] + rest,
            },
        ),
        rest.len() == 0 || !is_whitespace(rest[0]) ==> parsed(keyword + seq![' '] + rest).query
            == rest,
{
    let raw = keyword + seq![' '] + rest;
    let tail = seq![' '] + rest;
    assert(raw =~= keyword + tail);
    assert(is_whitespace(tail[0]));
    lemma_token_len_prefix(keyword, tail);
    assert(token_len(tail) == 0);
    let k = token_len(raw) as int;
    assert(k == keyword.len());
    assert(raw.take(k) =~= keyword);
    assert(raw.skip(k) =~= tail);
    assert(tail.drop_first() =~= rest);
    assert(blank_len(tail) == 1 + blank_len(rest));
    lemma_blank_len(rest);
    assert(tail.skip(blank_len(tail) as int) =~= rest.skip(blank_len(rest) as int));
    if rest.len() == 0 || !is_whitespace(rest[0]) {
        assert(rest.skip(0) =~= rest);
    }
}

/// Where there is a keyword, the query is shorter than the typed text.
pub proof fn lemma_query_shorter(raw: Seq<char>)
    requires
        parsed(raw).keyword is Some,
    ensures
        parsed(raw).query.len() < raw.len(),
{
    lemma_token_len(raw);
    let k = token_len(raw) as int;
    let rest = raw.skip(k);
    lemma_blank_len(rest);
    assert(rest[0] == raw[k]);
    assert(blank_len(rest) >= 1);
}

} // verus!
