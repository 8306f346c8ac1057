//! The launcher's configuration, as the router reads it.

use vstd::prelude::*;

verus! {

/// A stored bookmark.
#[derive(Debug, Clone, PartialEq, Eq)]
pub struct BookmarkConfig {
    pub id: u64,
    pub name: String,
    pub url: String,
}

/// A web search engine. `url` holds `%s` where the search text goes.
#[derive(Debug, Clone, PartialEq, Eq)]
pub struct SearchEngine {
    pub id: u64,
    pub keyword: String,
    pub name: String,
    pub url: String,
}

/// Everything the router needs to know about the user's settings.
#[derive(Debug, Clone, PartialEq, Eq)]
pub struct Config {
    pub bookmarks: Vec<BookmarkConfig>,
    pub search_engines: Vec<SearchEngine>,
    /// The id of the engine that answers when nothing else does.
    pub default_search_engine: u64,
    pub enable_emojis: bool,
    pub emojis_keyword: String,
    pub enable_bookmarks: bool,
    pub bookmarks_keyword: String,
    pub enable_session_manager: bool,
    pub session_manager_keyword: String,
}

/// The mathematical value of a [`BookmarkConfig`].
pub struct BookmarkView {
    pub id: u64,
    pub name: Seq<char>,
    pub url: Seq<char>,
}

/// The mathematical value of a [`SearchEngine`].
pub struct SearchEngineView {
    pub id: u64,
    pub keyword: Seq<char>,
    pub name: Seq<char>,
    pub url: Seq<char>,
}

/// The mathematical value of a [`Config`].
pub struct ConfigView {
    pub bookmarks: Seq<BookmarkView>,
    pub search_engines: Seq<SearchEngineView>,
    pub default_search_engine: u64,
    pub enable_emojis: bool,
    pub emojis_keyword: Seq<char>,
    pub enable_bookmarks: bool,
    pub bookmarks_keyword: Seq<char>,
    pub enable_session_manager: bool,
    pub session_manager_keyword: Seq<char>,
}

impl View for BookmarkConfig {
    type V = BookmarkView;

    open spec fn view(&self) -> BookmarkView {
        BookmarkView { id: self.id, name: self.name@, url: self.url@ }
    }
}

impl View for SearchEngine {
    type V = SearchEngineView;

    open spec fn view(&self) -> SearchEngineView {
        SearchEngineView { id: self.id, keyword: self.keyword@, name: self.name@, url: self.url@ }
    }
}

/// The values of a list of bookmarks, in order.
pub open spec fn bookmarks_view(bookmarks: Seq<BookmarkConfig>) -> Seq<BookmarkView> {
    bookmarks.map_values(|b: BookmarkConfig| b@)
}

/// The values of a list of search engines, in order.
pub open spec fn engines_view(engines: Seq<SearchEngine>) -> Seq<SearchEngineView> {
    engines.map_values(|e: SearchEngine| e@)
}

impl View for Config {
    type V = ConfigView;

    open spec fn view(&self) -> ConfigView {
        ConfigView {
            bookmarks: bookmarks_view(self.bookmarks@),
            search_engines: engines_view(self.search_engines@),
            default_search_engine: self.default_search_engine,
            enable_emojis: self.enable_emojis,
            emojis_keyword: self.emojis_keyword@,
            enable_bookmarks: self.enable_bookmarks,
            bookmarks_keyword: self.bookmarks_keyword@,
            enable_session_manager: self.enable_session_manager,
            session_manager_keyword: self.session_manager_keyword@,
        }
    }
}

} // verus!
