//! The search router: from a typed text to an ordered list of candidates.

use vstd::prelude::*;
use vstd::string::*;
use crate::apps::{
    app_matches, app_results, apps_view, get_app_results, lemma_app_results_category,
    lemma_no_app_results, App, AppView,
};
use crate::config::{engines_view, Config, ConfigView, SearchEngine, SearchEngineView};
use crate::fuzzy::{fuzzy_match, fuzzy_matches};
use crate::plugins::bookmarks::{
    bookmarks_results, get_bookmarks_results, lemma_bookmarks_results_category,
};
use crate::plugins::emojis::{
    built_in_catalog, emoji_results, get_emoji_results, lemma_emoji_results_category, EmojiView,
};
use crate::plugins::session::{
    get_session_results, lemma_session_results_category, session_results,
};
use crate::query::{lemma_query_shorter, parse, parsed, QueryError};
use crate::result::{
    results_view, text_view, Action, ActionView, OpenURL, TUIResult, TUIResultView,
};
use crate::seqs::first_where;
use crate::text::{fill_placeholder, replace_placeholder, same_text};

verus! {

/// The candidate that offers to look `text` up with `engine`.
pub open spec fn search_engine_result(engine: SearchEngineView, text: Seq<char>) -> TUIResultView {
    TUIResultView {
        title: engine.name,
        category: "search-engine"@,
        secondary_text: Some("Search for "@ + text),
        icon_path: None,
        action: ActionView::OpenURL { url: replace_placeholder(engine.url, text) },
    }
}

/// Builds the candidate that opens `search_engine` on `text`.
pub fn get_search_engine_result(search_engine: &SearchEngine, text: &str) -> (r: TUIResult)
    ensures
        r@ == search_engine_result(search_engine@, text@),
{
    let url = fill_placeholder(search_engine.url.as_str(), text);
    let secondary = String::from_str("Search for ").concat(text);
    TUIResult::new(
        search_engine.name.as_str(),
        "search-engine",
        Action::OpenURL(OpenURL { url }),
    ).set_secondary_text(secondary.as_str())
}

/// Why a search gave no result list.
#[derive(Debug, Clone, Copy, PartialEq, Eq, Structural)]
pub enum SearchError {
    /// A text handed to the parser could not be parsed.
    Query(QueryError),
}

impl SearchError {
    /// The error in words.
    pub open spec fn text(self) -> Seq<char> {
        match self {
            SearchError::Query(e) => e.text(),
        }
    }

    /// The error in words, for display.
    pub fn message(&self) -> (s: String)
        ensures
            s@ == self.text(),
    {
        match self {
            SearchError::Query(e) => e.message(),
        }
    }
}

/// The candidate that opens the launcher's settings.
pub open spec fn settings_result() -> TUIResultView {
    TUIResultView {
        title: "Settings"@,
        category: "settings"@,
        secondary_text: Some("Open Tuicher Settings"@),
        icon_path: None,
        action: ActionView::OpenSettings,
    }
}

/// The settings candidate if it is `offered`, else nothing.
pub open spec fn settings_offer(offered: bool) -> Seq<TUIResultView> {
    if offered {
        seq![settings_result()]
    } else {
        Seq::empty()
    }
}

/// The engines that `keyword` selects.
pub open spec fn has_keyword(keyword: Seq<char>) -> spec_fn(SearchEngineView) -> bool {
    |e: SearchEngineView| e.keyword == keyword
}

/// The engines with the id `id`.
pub open spec fn has_id(id: u64) -> spec_fn(SearchEngineView) -> bool {
    |e: SearchEngineView| e.id == id
}

/// The engine that answers when nothing else does: the first whose id is the
/// configured default.
pub open spec fn default_engine(config: ConfigView) -> Option<SearchEngineView> {
    first_where(config.search_engines, has_id(config.default_search_engine))
}

/// The mathematical value of a [`Provider`].
pub enum Route {
    Engine(SearchEngineView),
    Session,
    Emojis,
    Bookmarks,
    Fallback,
}

/// The provider that answers a search.
#[derive(Debug, Clone, PartialEq, Eq)]
pub enum Provider<'a> {
    /// The search engine whose keyword was typed.
    Engine(&'a SearchEngine),
    Session,
    Emojis,
    Bookmarks,
    /// No keyword selects a provider: applications, then the default engine.
    Fallback,
}

impl<'a> View for Provider<'a> {
    type V = Route;

    open spec fn view(&self) -> Route {
        match *self {
            Provider::Engine(e) => Route::Engine(e@),
            Provider::Session => Route::Session,
            Provider::Emojis => Route::Emojis,
            Provider::Bookmarks => Route::Bookmarks,
            Provider::Fallback => Route::Fallback,
        }
    }
}

/// The provider that `keyword` selects under `config`.
///
/// A search engine's keyword comes first, then the session manager's, the
/// emojis' and the bookmarks', each only if its feature is enabled. Of two
/// engines with the same keyword the first in the list answers.
pub open spec fn route(config: ConfigView, keyword: Option<Seq<char>>) -> Route {
    match keyword {
        None => Route::Fallback,
        Some(k) => match first_where(config.search_engines, has_keyword(k)) {
            Some(e) => Route::Engine(e),
            None => if config.enable_session_manager && k == config.session_manager_keyword {
                Route::Session
            } else if config.enable_emojis && k == config.emojis_keyword {
                Route::Emojis
            } else if config.enable_bookmarks && k == config.bookmarks_keyword {
                Route::Bookmarks
            } else {
                Route::Fallback
            },
        },
    }
}

/// What the fallback answers, given whether the text matches the word
/// "Settings", the candidates found in the application index, and the default
/// engine: the found candidates, with the settings candidate before them if
/// it is offered; if none was found, the default engine's candidate for the
/// text alone; if there is no default engine either, nothing.
pub open spec fn assembled(
    settings: bool,
    found: Seq<TUIResultView>,
    engine: Option<SearchEngineView>,
    text: Seq<char>,
) -> Seq<TUIResultView> {
    if found.len() > 0 {
        settings_offer(settings) + found
    } else {
        match engine {
            Some(e) => seq![search_engine_result(e, text)],
            None => Seq::empty(),
        }
    }
}

/// What the fallback answers to `text`.
pub open spec fn fallback_results(config: ConfigView, apps: Seq<AppView>, text: Seq<char>) -> Seq<
    TUIResultView,
> {
    assembled(
        fuzzy_match("Settings"@, text),
        app_results(apps, text),
        default_engine(config),
        text,
    )
}

/// What a search for `text` returns, given the configuration, the
/// application index and the emoji catalog.
///
/// The empty text finds nothing. Any other text is parsed, and the provider
/// that its keyword selects answers what follows the keyword. The bookmarks
/// provider fails when nothing follows the keyword. When no provider is
/// selected the fallback answers the whole text.
pub open spec fn search_results(
    config: ConfigView,
    apps: Seq<AppView>,
    catalog: Seq<EmojiView>,
    text: Seq<char>,
) -> Result<Seq<TUIResultView>, SearchError> {
    if text.len() == 0 {
        Ok(Seq::empty())
    } else {
        let q = parsed(text);
        match route(config, q.keyword) {
            Route::Engine(e) => Ok(seq![search_engine_result(e, q.query)]),
            Route::Session => Ok(session_results(q.query)),
            Route::Emojis => Ok(emoji_results(catalog, q.query)),
            Route::Bookmarks => if q.query.len() == 0 {
                Err(SearchError::Query(QueryError::Empty))
            } else {
                Ok(bookmarks_results(config.bookmarks, q.query))
            },
            Route::Fallback => Ok(fallback_results(config, apps, text)),
        }
    }
}

/// Whether a search for `text` reads the application index.
pub open spec fn reads_index(config: ConfigView, text: Seq<char>) -> bool {
    text.len() > 0 && route(config, parsed(text).keyword) is Fallback
}

/// Whether a search for `text` reads the emoji catalog.
pub open spec fn reads_catalog(config: ConfigView, text: Seq<char>) -> bool {
    text.len() > 0 && route(config, parsed(text).keyword) is Emojis
}

/// Finds the first engine with the keyword `keyword`.
pub fn find_engine_by_keyword<'a>(engines: &'a Vec<SearchEngine>, keyword: &str) -> (found: Option<
    &'a SearchEngine,
>)
    ensures
        match found {
            Some(e) => first_where(engines_view(engines@), has_keyword(keyword@)) == Some(e@),
            None => first_where(engines_view(engines@), has_keyword(keyword@)) is None,
        },
{
    let ghost all = engines_view(engines@);
    let mut i: usize = 0;
    assert(all.skip(0) =~= all);
    while i < engines.len()
        invariant
            i <= engines.len(),
            all == engines_view(engines@),
            first_where(all, has_keyword(keyword@)) == first_where(
                all.skip(i as int),
                has_keyword(keyword@),
            ),
        decreases engines.len() - i,
    {
        assert(all.skip(i as int).drop_first() =~= all.skip(i + 1));
        assert(all.skip(i as int)[0] == engines@[i as int]@);
        if same_text(engines[i].keyword.as_str(), keyword) {
            return Some(&engines[i]);
        }
        i = i + 1;
    }
    None
}

/// Finds the first engine with the id `id`.
pub fn find_engine_by_id(engines: &Vec<SearchEngine>, id: u64) -> (found: Option<&SearchEngine>)
    ensures
        match found {
            Some(e) => first_where(engines_view(engines@), has_id(id)) == Some(e@),
            None => first_where(engines_view(engines@), has_id(id)) is None,
        },
{
    let ghost all = engines_view(engines@);
    let mut i: usize = 0;
    assert(all.skip(0) =~= all);
    while i < engines.len()
        invariant
            i <= engines.len(),
            all == engines_view(engines@),
            first_where(all, has_id(id)) == first_where(all.skip(i as int), has_id(id)),
        decreases engines.len() - i,
    {
        assert(all.skip(i as int).drop_first() =~= all.skip(i + 1));
        assert(all.skip(i as int)[0] == engines@[i as int]@);
        if engines[i].id == id {
            return Some(&engines[i]);
        }
        i = i + 1;
    }
    None
}

/// Decides which provider answers a search with this keyword.
pub fn find_route<'a>(config: &'a Config, keyword: &Option<String>) -> (provider: Provider<'a>)
    ensures
        provider@ == route(config@, text_view(*keyword)),
{
    match keyword {
        None => Provider::Fallback,
        Some(keyword) => {
            match find_engine_by_keyword(&config.search_engines, keyword.as_str()) {
                Some(engine) => {
                    return Provider::Engine(engine);
                },
                None => {},
            }
            if config.enable_session_manager && same_text(
                keyword.as_str(),
                config.session_manager_keyword.as_str(),
            ) {
                Provider::Session
            } else if config.enable_emojis && same_text(
                keyword.as_str(),
                config.emojis_keyword.as_str(),
            ) {
                Provider::Emojis
            } else if config.enable_bookmarks && same_text(
                keyword.as_str(),
                config.bookmarks_keyword.as_str(),
            ) {
                Provider::Bookmarks
            } else {
                Provider::Fallback
            }
        },
    }
}

/// A list that holds `candidate` alone.
fn single(candidate: TUIResult) -> (out: Vec<TUIResult>)
    ensures
        results_view(out@) == seq![candidate@],
{
    let mut out: Vec<TUIResult> = Vec::new();
    out.push(candidate);
    assert(results_view(out@) =~= seq![candidate@]);
    out
}

/// Tells whether a search for `text` reads the application index, so that a
/// caller can leave the index on disk when it does not.
pub fn uses_app_index(text: &str, config: &Config) -> (b: bool)
    ensures
        b == reads_index(config@, text@),
{
    match parse(text) {
        Ok(query) => match find_route(config, &query.keyword) {
            Provider::Fallback => true,
            _ => false,
        },
        Err(_) => false,
    }
}

/// Puts the fallback's answer together: `found` with the settings candidate
/// before it if `settings` holds; the default engine's candidate for `text`
/// if `found` is empty; nothing if there is no default engine either.
pub fn assemble_fallback(settings: bool, found: Vec<TUIResult>, config: &Config, text: &str) -> (out:
    Vec<TUIResult>)
    ensures
        results_view(out@) == assembled(
            settings,
            results_view(found@),
            default_engine(config@),
            text@,
        ),
{
    let mut found = found;
    if found.len() > 0 {
        let mut results: Vec<TUIResult> = Vec::new();
        if settings {
            results.push(
                TUIResult::new("Settings", "settings", Action::OpenSettings).set_secondary_text(
                    "Open Tuicher Settings",
                ),
            );
        }
        let ghost head = results@;
        let ghost tail = found@;
        results.append(&mut found);
        proof {
            assert(results_view(head) =~= settings_offer(settings));
            assert(results_view(results@) =~= results_view(head) + results_view(tail));
        }
        return results;
    }
    assert(results_view(found@).len() == 0);
    match find_engine_by_id(&config.search_engines, config.default_search_engine) {
        Some(engine) => single(get_search_engine_result(engine, text)),
        None => {
            assert(results_view(found@) =~= Seq::<TUIResultView>::empty());
            found
        },
    }
}

/// Answers a search text when no keyword selects a provider.
pub fn get_fallback_results(text: &str, config: &Config, apps: &Vec<App>) -> (out: Vec<TUIResult>)
    ensures
        results_view(out@) == fallback_results(config@, apps_view(apps@), text@),
{
    let settings = fuzzy_matches("Settings", text);
    let found = get_app_results(apps, text);
    assemble_fallback(settings, found, config, text)
}

/// Whether `res` is the answer `expected`, value for value.
pub open spec fn is_answer(
    res: Result<Vec<TUIResult>, SearchError>,
    expected: Result<Seq<TUIResultView>, SearchError>,
) -> bool {
    match res {
        Ok(out) => expected == Ok::<Seq<TUIResultView>, SearchError>(results_view(out@)),
        Err(e) => expected == Err::<Seq<TUIResultView>, SearchError>(e),
    }
}

/// Searches for `text`.
///
/// `apps` is the application index as last built, or empty if it could not be
/// read. The emoji catalog is the built-in one, whose length is the `n` of the
/// contract.
pub fn invoke_search(text: &str, config: &Config, apps: &Vec<App>) -> (res: Result<
    Vec<TUIResult>,
    SearchError,
>)
    ensures
        text@.len() == 0 ==> res is Ok && res->Ok_0@.len() == 0,
        !reads_catalog(config@, text@) ==> is_answer(
            res,
            search_results(config@, apps_view(apps@), Seq::empty(), text@),
        ),
        exists|n: nat|
            n > 0 && is_answer(
                res,
                search_results(config@, apps_view(apps@), #[trigger] built_in_catalog(n), text@),
            ),
{
    let ghost none = Seq::<EmojiView>::empty();
    let ghost one = built_in_catalog(1);
    let ghost index = apps_view(apps@);
    if text.is_empty() {
        let out: Vec<TUIResult> = Vec::new();
        let res = Ok(out);
        proof {
            assert(results_view(out@) =~= Seq::<TUIResultView>::empty());
            assert(is_answer(res, search_results(config@, index, none, text@)));
            assert(is_answer(res, search_results(config@, index, one, text@)));
        }
        return res;
    }
    let query = match parse(text) {
        Ok(query) => query,
        Err(e) => {
            return Err(SearchError::Query(e));
        },
    };
    match find_route(config, &query.keyword) {
        Provider::Engine(engine) => {
            let res = Ok(single(get_search_engine_result(engine, query.query.as_str())));
            assert(is_answer(res, search_results(config@, index, none, text@)));
            assert(is_answer(res, search_results(config@, index, one, text@)));
            res
        },
        Provider::Session => {
            let res = Ok(get_session_results(query.query.as_str()));
            assert(is_answer(res, search_results(config@, index, none, text@)));
            assert(is_answer(res, search_results(config@, index, one, text@)));
            res
        },
        Provider::Emojis => {
            let out = get_emoji_results(query.query.as_str());
            let res = Ok(out);
            proof {
                let n = choose|n: nat|
                    n > 0 && results_view(out@) == #[trigger] emoji_results(
                        built_in_catalog(n),
                        query@.query,
                    );
                assert(is_answer(res, search_results(config@, index, built_in_catalog(n), text@)));
            }
            res
        },
        Provider::Bookmarks => {
            let res = match get_bookmarks_results(config, query.query.as_str()) {
                Ok(out) => Ok(out),
                Err(e) => Err(SearchError::Query(e)),
            };
            assert(is_answer(res, search_results(config@, index, none, text@)));
            assert(is_answer(res, search_results(config@, index, one, text@)));
            res
        },
        Provider::Fallback => {
            let res = Ok(get_fallback_results(text, config, apps));
            assert(is_answer(res, search_results(config@, index, none, text@)));
            assert(is_answer(res, search_results(config@, index, one, text@)));
            res
        },
    }
}

/// A search that does not read the application index gives the same answer
/// whatever the index holds.
pub proof fn lemma_index_unread(
    config: ConfigView,
    apps: Seq<AppView>,
    other: Seq<AppView>,
    catalog: Seq<EmojiView>,
    text: Seq<char>,
)
    requires
        !reads_index(config, text),
    ensures
        search_results(config, apps, catalog, text) == search_results(config, other, catalog, text),
{
}

/// A search that does not read the emoji catalog gives the same answer
/// whatever the catalog holds.
pub proof fn lemma_catalog_unread(
    config: ConfigView,
    apps: Seq<AppView>,
    catalog: Seq<EmojiView>,
    other: Seq<EmojiView>,
    text: Seq<char>,
)
    requires
        !reads_catalog(config, text),
    ensures
        search_results(config, apps, catalog, text) == search_results(config, apps, other, text),
{
}

/// When no keyword selects a provider and no application matches, the
/// default search engine answers alone, with the whole text put into its
/// address.
pub proof fn lemma_default_engine_answers(
    config: ConfigView,
    apps: Seq<AppView>,
    catalog: Seq<EmojiView>,
    text: Seq<char>,
    engine: SearchEngineView,
)
    requires
        reads_index(config, text),
        forall|i: int| 0 <= i < apps.len() ==> !app_matches(#[trigger] apps[i], text),
        default_engine(config) == Some(engine),
    ensures
        search_results(config, apps, catalog, text) == Ok::<Seq<TUIResultView>, SearchError>(
            seq![search_engine_result(engine, text)],
        ),
        search_engine_result(engine, text).action == (ActionView::OpenURL {
            url: replace_placeholder(engine.url, text),
        }),
{
    lemma_no_app_results(apps, text);
}

/// When an application matches the text, no search engine's candidate for
/// that text is among the results: the default engine is not consulted.
pub proof fn lemma_apps_hide_default_engine(
    config: ConfigView,
    apps: Seq<AppView>,
    catalog: Seq<EmojiView>,
    text: Seq<char>,
    engine: SearchEngineView,
)
    requires
        exists|i: int| 0 <= i < apps.len() && app_matches(#[trigger] apps[i], text),
    ensures
        match search_results(config, apps, catalog, text) {
            Ok(results) => !results.contains(search_engine_result(engine, text)),
            Err(_) => true,
        },
{
    reveal_strlit("search-engine");
    reveal_strlit("shutdown");
    reveal_strlit("restart");
    reveal_strlit("suspend");
    reveal_strlit("logout");
    reveal_strlit("emojis");
    reveal_strlit("bookmarks");
    reveal_strlit("settings");
    reveal_strlit("app");
    assert("search-engine"@.len() == 13);
    assert("shutdown"@.len() == 8 && "restart"@.len() == 7 && "suspend"@.len() == 7);
    assert("logout"@.len() == 6 && "emojis"@.len() == 6 && "bookmarks"@.len() == 9);
    assert("settings"@.len() == 8 && "app"@.len() == 3);
    let hidden = search_engine_result(engine, text);
    match search_results(config, apps, catalog, text) {
        Ok(results) => {
            if results.contains(hidden) {
                let q = parsed(text);
                assert(text.len() > 0);
                match route(config, q.keyword) {
                    Route::Engine(e) => {
                        lemma_query_shorter(text);
                        assert(results[0] == hidden);
                        assert(("Search for "@ + q.query).len() != ("Search for "@ + text).len());
                    },
                    Route::Session => {
                        lemma_session_results_category(q.query, hidden);
                    },
                    Route::Emojis => {
                        lemma_emoji_results_category(catalog, q.query, hidden);
                    },
                    Route::Bookmarks => {
                        lemma_bookmarks_results_category(config.bookmarks, q.query, hidden);
                    },
                    Route::Fallback => {
                        lemma_no_app_results(apps, text);
                        let offer = settings_offer(fuzzy_match("Settings"@, text));
                        let found = app_results(apps, text);
                        let i = choose|i: int| 0 <= i < results.len() && results[i] == hidden;
                        if i < offer.len() {
                            assert(offer[i] == hidden);
                        } else {
                            assert(found[i - offer.len()] == hidden);
                            lemma_app_results_category(apps, text, hidden);
                        }
                    },
                }
            }
        },
        Err(_) => {},
    }
}

} // verus!
