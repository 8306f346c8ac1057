use tuicher::apps::App;
use tuicher::config::{BookmarkConfig, Config, SearchEngine};
use tuicher::query::QueryError;
use tuicher::result::{Action, AddBookmark, Bookmark, CopyText, OpenApp, OpenURL, Session, TUIResult};
use tuicher::search::{
    assemble_fallback, find_engine_by_id, find_engine_by_keyword, find_route,
    get_fallback_results, invoke_search, uses_app_index, Provider, SearchError,
};

fn engine(id: u64, keyword: &str, name: &str, url: &str) -> SearchEngine {
    SearchEngine { id, keyword: keyword.to_string(), name: name.to_string(), url: url.to_string() }
}

fn config() -> Config {
    Config {
        bookmarks: vec![BookmarkConfig {
            id: 1,
            name: "Example".to_string(),
            url: "https://example.com".to_string(),
        }],
        search_engines: vec![
            engine(1, "g", "Goo", "https://goo.example/search?q=%s"),
            engine(2, "d", "Duck", "https://duck.com/?q=%s"),
            engine(3, "g", "Shadowed", "https://shadowed.example/%s"),
        ],
        default_search_engine: 2,
        enable_emojis: true,
        emojis_keyword: "em".to_string(),
        enable_bookmarks: true,
        bookmarks_keyword: "bm".to_string(),
        enable_session_manager: true,
        session_manager_keyword: "sm".to_string(),
    }
}

fn app(name: &str, keywords: &[&str]) -> App {
    App {
        name: name.to_string(),
        description: None,
        keywords: keywords.iter().map(|k| k.to_string()).collect(),
        path: format!("/usr/share/applications/{}.desktop", name),
        icon_path: None,
    }
}

#[test]
fn empty_text_finds_nothing() {
    assert_eq!(invoke_search("", &config(), &vec![app("Firefox", &[])]), Ok(vec![]));
    let mut bare = config();
    bare.search_engines.clear();
    bare.bookmarks.clear();
    bare.enable_bookmarks = false;
    assert_eq!(invoke_search("", &bare, &vec![]), Ok(vec![]));
}

#[test]
fn bookmark_keyword_opens_the_bookmark() {
    let results = invoke_search("bm Example", &config(), &vec![]).unwrap();
    assert_eq!(results.len(), 1);
    assert_eq!(results[0].action, Action::OpenURL(OpenURL { url: "https://example.com".to_string() }));
}

#[test]
fn bookmark_keyword_adds_a_bookmark() {
    let results =
        invoke_search("bm a Example Site https://example.com", &config(), &vec![]).unwrap();
    assert_eq!(results.len(), 1);
    assert_eq!(
        results[0].action,
        Action::Bookmark(Bookmark::Add(AddBookmark {
            name: "Example Site".to_string(),
            url: "https://example.com".to_string(),
        }))
    );
}

#[test]
fn bookmark_keyword_alone_is_an_error() {
    let err = invoke_search("bm ", &config(), &vec![]).unwrap_err();
    assert_eq!(err, SearchError::Query(QueryError::Empty));
    assert_eq!(err.message(), "the search text is empty");
}

#[test]
fn disabled_bookmarks_fall_through() {
    let mut config = config();
    config.enable_bookmarks = false;
    let results = invoke_search("bm Example", &config, &vec![]).unwrap();
    assert_eq!(results.len(), 1);
    assert_eq!(results[0].category, "search-engine");
    assert_eq!(
        results[0].action,
        Action::OpenURL(OpenURL { url: "https://duck.com/?q=bm Example".to_string() })
    );
}

#[test]
fn session_keyword_offers_shutdown_only() {
    let results = invoke_search("sm shutdown", &config(), &vec![]).unwrap();
    assert_eq!(results.len(), 1);
    assert_eq!(results[0].action, Action::Session(Session::Shutdown));
}

#[test]
fn emoji_keyword_searches_the_catalog() {
    let results = invoke_search("em rocket", &config(), &vec![app("Rocket", &[])]).unwrap();
    let rocket = TUIResult::new("🚀 rocket", "emojis", Action::CopyText(CopyText::new("🚀")));
    assert!(results.contains(&rocket));
    assert!(results.iter().all(|r| r.category == "emojis"));
    assert_eq!(invoke_search("em  ", &config(), &vec![]), Ok(vec![]));
}

#[test]
fn engine_keyword_searches_the_rest_with_the_first_such_engine() {
    let results = invoke_search("g rust verus", &config(), &vec![app("Rust", &[])]).unwrap();
    assert_eq!(results.len(), 1);
    assert_eq!(results[0].title, "Goo");
    assert_eq!(results[0].category, "search-engine");
    assert_eq!(results[0].secondary_text, Some("Search for rust verus".to_string()));
    assert_eq!(
        results[0].action,
        Action::OpenURL(OpenURL { url: "https://goo.example/search?q=rust verus".to_string() })
    );
}

#[test]
fn engine_keyword_wins_over_a_feature_keyword() {
    let mut config = config();
    config.search_engines.push(engine(9, "sm", "Smart", "https://smart.example/%s"));
    let results = invoke_search("sm shutdown", &config, &vec![]).unwrap();
    assert_eq!(results.len(), 1);
    assert_eq!(
        results[0].action,
        Action::OpenURL(OpenURL { url: "https://smart.example/shutdown".to_string() })
    );
}

#[test]
fn default_engine_answers_when_no_app_matches() {
    let config = Config {
        bookmarks: vec![],
        search_engines: vec![engine(5, "d", "Duck", "https://duck.com/?q=%s")],
        default_search_engine: 5,
        enable_emojis: false,
        emojis_keyword: String::new(),
        enable_bookmarks: false,
        bookmarks_keyword: String::new(),
        enable_session_manager: false,
        session_manager_keyword: String::new(),
    };
    let apps = vec![app("Zzzzzzzzzzzzzzzzzzzz", &["qqqqqqqqqqqqqqqqqqqq"])];
    let results = invoke_search("foobar", &config, &apps).unwrap();
    assert_eq!(results.len(), 1);
    assert_eq!(
        results[0].action,
        Action::OpenURL(OpenURL { url: "https://duck.com/?q=foobar".to_string() })
    );
    assert_eq!(results[0].title, "Duck");
    assert_eq!(results[0].secondary_text, Some("Search for foobar".to_string()));
}

#[test]
fn no_default_engine_and_no_app_finds_nothing() {
    let mut config = config();
    config.default_search_engine = 77;
    assert_eq!(invoke_search("foobar", &config, &vec![]), Ok(vec![]));
    assert_eq!(invoke_search("Settings", &config, &vec![]), Ok(vec![]));
}

#[test]
fn matching_app_hides_the_default_engine() {
    let apps = vec![app("Firefox", &["browser"]), app("Zzzzzzzzzzzzzzzzzzzz", &[])];
    let results = invoke_search("firefox", &config(), &apps).unwrap();
    assert_eq!(results.len(), 1);
    assert_eq!(results[0].title, "Firefox");
    assert_eq!(results[0].category, "app");
    assert_eq!(results[0].secondary_text, Some("Application".to_string()));
    assert_eq!(
        results[0].action,
        Action::OpenApp(OpenApp { path: "/usr/share/applications/Firefox.desktop".to_string() })
    );
    assert!(results.iter().all(|r| r.category != "search-engine"));
}

#[test]
fn apps_match_by_keyword_and_carry_description_and_icon() {
    let mut editor = app("Zzzzzzzzzzzzzzzzzzzz", &["qqqqqqqqqqqqqqqq", "editor"]);
    editor.description = Some("Edit text".to_string());
    editor.icon_path = Some("/icons/editor.svg".to_string());
    let results = invoke_search("editor", &config(), &vec![app("Yyyyyyyyyyyyyyyyyyyy", &[]), editor]).unwrap();
    assert_eq!(results.len(), 1);
    assert_eq!(results[0].title, "Zzzzzzzzzzzzzzzzzzzz");
    assert_eq!(results[0].secondary_text, Some("Edit text".to_string()));
    assert_eq!(results[0].icon_path, Some("/icons/editor.svg".to_string()));
}

#[test]
fn settings_candidate_comes_before_the_apps() {
    let apps = vec![app("Settings Center", &[]), app("Gnome Settings", &["settings"])];
    let results = get_fallback_results("settings", &config(), &apps);
    assert_eq!(results.len(), 3);
    assert_eq!(
        results[0],
        TUIResult::new("Settings", "settings", Action::OpenSettings)
            .set_secondary_text("Open Tuicher Settings")
    );
    assert_eq!(results[1].title, "Settings Center");
    assert_eq!(results[2].title, "Gnome Settings");
    assert_eq!(invoke_search("settings", &config(), &apps), Ok(results));
}

#[test]
fn unknown_keyword_searches_the_whole_text() {
    let apps = vec![app("Visual Studio", &[])];
    let results = invoke_search("visual studio", &config(), &apps).unwrap();
    assert_eq!(results.len(), 1);
    assert_eq!(results[0].title, "Visual Studio");
}

#[test]
fn index_is_read_only_by_the_fallback() {
    let config = config();
    assert!(uses_app_index("firefox", &config));
    assert!(uses_app_index("visual studio", &config));
    assert!(!uses_app_index("", &config));
    assert!(!uses_app_index("g rust", &config));
    assert!(!uses_app_index("sm shutdown", &config));
    assert!(!uses_app_index("em rocket", &config));
    assert!(!uses_app_index("bm Example", &config));
    let mut off = config.clone();
    off.enable_session_manager = false;
    off.enable_emojis = false;
    off.enable_bookmarks = false;
    assert!(uses_app_index("sm shutdown", &off));
    assert!(uses_app_index("em rocket", &off));
    assert!(uses_app_index("bm Example", &off));
}

#[test]
fn engines_are_found_by_keyword_and_id() {
    let config = config();
    assert_eq!(find_engine_by_keyword(&config.search_engines, "g").map(|e| e.id), Some(1));
    assert_eq!(find_engine_by_keyword(&config.search_engines, "d").map(|e| e.id), Some(2));
    assert_eq!(find_engine_by_keyword(&config.search_engines, "x"), None);
    assert_eq!(find_engine_by_id(&config.search_engines, 3).map(|e| e.name.as_str()), Some("Shadowed"));
    assert_eq!(find_engine_by_id(&config.search_engines, 4), None);
}

#[test]
fn route_follows_the_precedence_of_keywords() {
    let mut config = config();
    let key = |k: &str| Some(k.to_string());
    assert_eq!(find_route(&config, &None), Provider::Fallback);
    assert_eq!(find_route(&config, &key("g")), Provider::Engine(&config.search_engines[0]));
    assert_eq!(find_route(&config, &key("d")), Provider::Engine(&config.search_engines[1]));
    assert_eq!(find_route(&config, &key("sm")), Provider::Session);
    assert_eq!(find_route(&config, &key("em")), Provider::Emojis);
    assert_eq!(find_route(&config, &key("bm")), Provider::Bookmarks);
    assert_eq!(find_route(&config, &key("BM")), Provider::Fallback);
    assert_eq!(find_route(&config, &key("")), Provider::Fallback);
    config.session_manager_keyword = "x".to_string();
    config.emojis_keyword = "x".to_string();
    config.bookmarks_keyword = "x".to_string();
    assert_eq!(find_route(&config, &key("x")), Provider::Session);
    config.enable_session_manager = false;
    assert_eq!(find_route(&config, &key("x")), Provider::Emojis);
    config.enable_emojis = false;
    assert_eq!(find_route(&config, &key("x")), Provider::Bookmarks);
    config.enable_bookmarks = false;
    assert_eq!(find_route(&config, &key("x")), Provider::Fallback);
}

#[test]
fn fallback_is_assembled_from_its_parts() {
    let config = config();
    let settings = TUIResult::new("Settings", "settings", Action::OpenSettings)
        .set_secondary_text("Open Tuicher Settings");
    let found = vec![
        TUIResult::new("A", "app", Action::OpenApp(OpenApp::new("/a.desktop"))),
        TUIResult::new("B", "app", Action::OpenApp(OpenApp::new("/b.desktop"))),
    ];
    assert_eq!(
        assemble_fallback(true, found.clone(), &config, "text"),
        vec![settings, found[0].clone(), found[1].clone()]
    );
    assert_eq!(assemble_fallback(false, found.clone(), &config, "text"), found);
    for settings_matches in [true, false] {
        let results = assemble_fallback(settings_matches, vec![], &config, "two words");
        assert_eq!(results.len(), 1);
        assert_eq!(results[0].title, "Duck");
        assert_eq!(
            results[0].action,
            Action::OpenURL(OpenURL { url: "https://duck.com/?q=two words".to_string() })
        );
    }
    let mut none = config.clone();
    none.default_search_engine = 42;
    assert_eq!(assemble_fallback(true, vec![], &none, "text"), vec![]);
}
