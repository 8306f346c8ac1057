use tuicher::apps::{
    apps_where, get_app_results, index_apps, index_entry, is_indexable, match_apps,
    needs_rebuild, App, ChangeKind, EntryDescriptor,
};
use tuicher::result::{Action, OpenApp, TUIResult};
use tuicher::listener::{Command, Coordinator, Event};

fn entry(name: Option<&str>, kind: Option<&str>, no_display: bool) -> EntryDescriptor {
    EntryDescriptor {
        no_display,
        kind: kind.map(|k| k.to_string()),
        name: name.map(|n| n.to_string()),
        comment: None,
        keywords: None,
        path: format!("/apps/{}.desktop", name.unwrap_or("unnamed")),
        icon_path: None,
    }
}

#[test]
fn hidden_entries_are_not_indexed() {
    assert!(!is_indexable(&entry(Some("A"), Some("Application"), true)));
    assert_eq!(index_entry(&entry(Some("A"), Some("Application"), true)), None);
}

#[test]
fn only_applications_are_indexed() {
    assert!(is_indexable(&entry(Some("A"), Some("Application"), false)));
    assert!(!is_indexable(&entry(Some("A"), Some("Link"), false)));
    assert!(!is_indexable(&entry(Some("A"), Some("application"), false)));
    assert!(!is_indexable(&entry(Some("A"), None, false)));
}

#[test]
fn entries_without_name_are_skipped() {
    assert!(!is_indexable(&entry(None, Some("Application"), false)));
    assert_eq!(index_entry(&entry(None, Some("Application"), false)), None);
}

#[test]
fn indexed_app_carries_the_entry_fields() {
    let mut e = entry(Some("Editor"), Some("Application"), false);
    e.comment = Some("Edit text".to_string());
    e.keywords = Some(vec!["text".to_string(), "write".to_string()]);
    e.icon_path = Some("/icons/editor.svg".to_string());
    assert_eq!(
        index_entry(&e),
        Some(App {
            name: "Editor".to_string(),
            description: Some("Edit text".to_string()),
            keywords: vec!["text".to_string(), "write".to_string()],
            path: "/apps/Editor.desktop".to_string(),
            icon_path: Some("/icons/editor.svg".to_string()),
        })
    );
    let plain = index_entry(&entry(Some("Plain"), Some("Application"), false)).unwrap();
    assert_eq!(plain.description, None);
    assert_eq!(plain.keywords, Vec::<String>::new());
    assert_eq!(plain.icon_path, None);
}

#[test]
fn index_keeps_entry_order_and_duplicates() {
    let entries = vec![
        entry(Some("B"), Some("Application"), false),
        entry(Some("hidden"), Some("Application"), true),
        entry(Some("A"), Some("Application"), false),
        entry(None, Some("Application"), false),
        entry(Some("B"), Some("Application"), false),
        entry(Some("dir"), Some("Directory"), false),
    ];
    let names: Vec<String> = index_apps(&entries).into_iter().map(|a| a.name).collect();
    assert_eq!(names, vec!["B", "A", "B"]);
    assert_eq!(index_apps(&vec![]), vec![]);
}

#[test]
fn rebuilding_from_the_same_entries_gives_the_same_index() {
    let entries = vec![
        entry(Some("B"), Some("Application"), false),
        entry(Some("A"), Some("Application"), false),
        entry(Some("C"), Some("Link"), false),
    ];
    assert_eq!(index_apps(&entries), index_apps(&entries.clone()));
}

#[test]
fn app_search_keeps_index_order() {
    let apps = index_apps(&vec![
        entry(Some("Files"), Some("Application"), false),
        entry(Some("Zzzzzzzzzzzzzzzzzzzzzzzz"), Some("Application"), false),
        entry(Some("Files"), Some("Application"), false),
    ]);
    let results = get_app_results(&apps, "files");
    assert_eq!(results.len(), 2);
    assert_eq!(results[0].title, "Files");
    assert_eq!(results[1].title, "Files");
    assert_eq!(get_app_results(&apps, "qqqqqqqqqqqqqqqqqqqqqqqqqqqqqqqq").len(), 0);
}

#[test]
fn only_create_data_change_and_remove_rebuild_the_index() {
    assert!(needs_rebuild(ChangeKind::Create));
    assert!(needs_rebuild(ChangeKind::ModifyData));
    assert!(needs_rebuild(ChangeKind::Remove));
    assert!(!needs_rebuild(ChangeKind::ModifyOther));
    assert!(!needs_rebuild(ChangeKind::Other));
}

#[test]
fn second_instance_pings_the_first_and_exits() {
    let mut c = Coordinator::new();
    assert_eq!(c, Coordinator::Starting);
    assert_eq!(c.step(Event::AddressChecked { present: true }), vec![Command::Connect]);
    assert_eq!(c, Coordinator::Connecting);
    assert_eq!(c.step(Event::Connected), vec![Command::SendPing, Command::Exit { status: 0 }]);
    assert_eq!(c, Coordinator::Finished);
}

#[test]
fn stale_address_is_removed_and_a_fresh_instance_started() {
    let mut c = Coordinator::new();
    c.step(Event::AddressChecked { present: true });
    assert_eq!(
        c.step(Event::ConnectFailed),
        vec![Command::RemoveStaleAddress, Command::LaunchInstance, Command::Exit { status: 0 }]
    );
    assert_eq!(c, Coordinator::Finished);
}

#[test]
fn first_instance_binds_and_serves_every_connection() {
    let mut c = Coordinator::new();
    assert_eq!(
        c.step(Event::AddressChecked { present: false }),
        vec![Command::RemoveLeftover, Command::Bind]
    );
    assert_eq!(c, Coordinator::Listening);
    for _ in 0..3 {
        assert_eq!(
            c.step(Event::ConnectionAccepted),
            vec![Command::Acknowledge, Command::ShowWindow, Command::NotifyWindowShow]
        );
        assert_eq!(c, Coordinator::Listening);
    }
    assert_eq!(c.step(Event::AcceptFailed), vec![Command::Exit { status: 1 }]);
    assert_eq!(c, Coordinator::Finished);
}

#[test]
fn unexpected_events_change_nothing() {
    let mut c = Coordinator::new();
    for event in [Event::Connected, Event::ConnectFailed, Event::ConnectionAccepted, Event::AcceptFailed] {
        assert_eq!(c.step(event), vec![]);
        assert_eq!(c, Coordinator::Starting);
    }
    c.step(Event::AddressChecked { present: false });
    for event in [Event::AddressChecked { present: true }, Event::Connected, Event::ConnectFailed] {
        assert_eq!(c.step(event), vec![]);
        assert_eq!(c, Coordinator::Listening);
    }
    c.step(Event::AcceptFailed);
    for event in [Event::AddressChecked { present: false }, Event::ConnectionAccepted, Event::AcceptFailed] {
        assert_eq!(c.step(event), vec![]);
        assert_eq!(c, Coordinator::Finished);
    }
}

#[test]
fn marked_apps_become_candidates_in_order() {
    let apps = vec![
        App {
            name: "Editor".to_string(),
            description: Some("Edit text".to_string()),
            keywords: vec!["write".to_string()],
            path: "/apps/editor.desktop".to_string(),
            icon_path: Some("/icons/editor.svg".to_string()),
        },
        App {
            name: "Files".to_string(),
            description: None,
            keywords: vec![],
            path: "/apps/files.desktop".to_string(),
            icon_path: None,
        },
    ];
    let mut editor = TUIResult::new("Editor", "app", Action::OpenApp(OpenApp::new("/apps/editor.desktop")))
        .set_secondary_text("Edit text");
    editor.set_icon_path("/icons/editor.svg");
    let files = TUIResult::new("Files", "app", Action::OpenApp(OpenApp::new("/apps/files.desktop")))
        .set_secondary_text("Application");
    assert_eq!(apps_where(&apps, &vec![true, true]), vec![editor.clone(), files.clone()]);
    assert_eq!(apps_where(&apps, &vec![false, true]), vec![files]);
    assert_eq!(apps_where(&apps, &vec![true]), vec![editor]);
    assert_eq!(apps_where(&apps, &vec![false, false]), vec![]);
    assert_eq!(match_apps(&apps, "write"), vec![true, false]);
    assert_eq!(match_apps(&apps, "files"), vec![false, true]);
}
