//! The application index: which desktop entries it lists, and how a search
//! text finds an application in it.

use vstd::prelude::*;
use vstd::string::*;
use crate::fuzzy::{any_fuzzy_match, any_matches, fuzzy_match, fuzzy_matches, texts_view};
use crate::result::{results_view, text_view, Action, ActionView, OpenApp, TUIResult, TUIResultView};
use crate::seqs::{lemma_marked_is_filter_map, lemma_marked_take, marked};
use crate::text::same_text;

verus! {

/// One application of the index.
#[derive(Debug, Clone, PartialEq, Eq)]
pub struct App {
    pub name: String,
    pub description: Option<String>,
    /// Further words the application is found by, in the entry's order.
    pub keywords: Vec<String>,
    /// Where the desktop entry was read from.
    pub path: String,
    pub icon_path: Option<String>,
}

/// The mathematical value of an [`App`].
pub struct AppView {
    pub name: Seq<char>,
    pub description: Option<Seq<char>>,
    pub keywords: Seq<Seq<char>>,
    pub path: Seq<char>,
    pub icon_path: Option<Seq<char>>,
}

impl View for App {
    type V = AppView;

    open spec fn view(&self) -> AppView {
        AppView {
            name: self.name@,
            description: text_view(self.description),
            keywords: texts_view(self.keywords@),
            path: self.path@,
            icon_path: text_view(self.icon_path),
        }
    }
}

/// The values of a list of applications, in order.
pub open spec fn apps_view(apps: Seq<App>) -> Seq<AppView> {
    apps.map_values(|a: App| a@)
}

/// What the indexer reads of one desktop entry, localized by the caller.
#[derive(Debug, Clone, PartialEq, Eq)]
pub struct EntryDescriptor {
    /// The entry asks not to be shown in menus.
    pub no_display: bool,
    /// The entry's type, such as `Application` or `Link`.
    pub kind: Option<String>,
    pub name: Option<String>,
    pub comment: Option<String>,
    pub keywords: Option<Vec<String>>,
    /// The file the entry was read from.
    pub path: String,
    /// Where the entry's icon was found, if it names one and it was found.
    pub icon_path: Option<String>,
}

/// The mathematical value of an [`EntryDescriptor`].
pub struct EntryView {
    pub no_display: bool,
    pub kind: Option<Seq<char>>,
    pub name: Option<Seq<char>>,
    pub comment: Option<Seq<char>>,
    pub keywords: Option<Seq<Seq<char>>>,
    pub path: Seq<char>,
    pub icon_path: Option<Seq<char>>,
}

impl View for EntryDescriptor {
    type V = EntryView;

    open spec fn view(&self) -> EntryView {
        EntryView {
            no_display: self.no_display,
            kind: text_view(self.kind),
            name: text_view(self.name),
            comment: text_view(self.comment),
            keywords: match self.keywords {
                Some(k) => Some(texts_view(k@)),
                None => None,
            },
            path: self.path@,
            icon_path: text_view(self.icon_path),
        }
    }
}

/// The values of a list of entries, in order.
pub open spec fn entries_view(entries: Seq<EntryDescriptor>) -> Seq<EntryView> {
    entries.map_values(|e: EntryDescriptor| e@)
}

/// Whether the index lists `entry`: it is shown in menus, it is an
/// application, and it has a name.
pub open spec fn indexable(entry: EntryView) -> bool {
    &&& !entry.no_display
    &&& entry.kind == Some("Application"@)
    &&& entry.name is Some
}

/// The application that an indexable entry describes.
pub open spec fn app_of(entry: EntryView) -> AppView {
    AppView {
        name: entry.name->0,
        description: entry.comment,
        keywords: match entry.keywords {
            Some(k) => k,
            None => Seq::empty(),
        },
        path: entry.path,
        icon_path: entry.icon_path,
    }
}

/// The application, if any, that `entry` contributes to the index.
pub open spec fn entry_pick() -> spec_fn(EntryView) -> Option<AppView> {
    |entry: EntryView|
        if indexable(entry) {
            Some(app_of(entry))
        } else {
            None
        }
}

/// The index built from `entries`: the applications of the indexable
/// entries, in the order of the entries.
pub open spec fn indexed_apps(entries: Seq<EntryView>) -> Seq<AppView> {
    entries.filter_map(entry_pick())
}

/// A copy of every text of `texts`.
fn copy_texts(texts: &Vec<String>) -> (out: Vec<String>)
    ensures
        texts_view(out@) == texts_view(texts@),
{
    let mut out: Vec<String> = Vec::new();
    let mut i: usize = 0;
    while i < texts.len()
        invariant
            i <= texts.len(),
            out.len() == i,
            forall|j: int| 0 <= j < i ==> out@[j]@ == texts@[j]@,
        decreases texts.len() - i,
    {
        out.push(texts[i].clone());
        i = i + 1;
    }
    assert(texts_view(out@) =~= texts_view(texts@));
    out
}

/// A copy of an optional text.
fn copy_text(text: &Option<String>) -> (out: Option<String>)
    ensures
        text_view(out) == text_view(*text),
{
    match text {
        Some(t) => Some(t.clone()),
        None => None,
    }
}

/// Tells whether the index lists `entry`.
pub fn is_indexable(entry: &EntryDescriptor) -> (b: bool)
    ensures
        b == indexable(entry@),
{
    if entry.no_display {
        return false;
    }
    let is_application = match &entry.kind {
        Some(kind) => same_text(kind.as_str(), "Application"),
        None => false,
    };
    is_application && entry.name.is_some()
}

/// The application that `entry` contributes to the index, if it is listed.
pub fn index_entry(entry: &EntryDescriptor) -> (app: Option<App>)
    ensures
        match app {
            Some(a) => indexable(entry@) && a@ == app_of(entry@),
            None => !indexable(entry@),
        },
{
    if !is_indexable(entry) {
        return None;
    }
    let name = match &entry.name {
        Some(name) => name.clone(),
        None => {
            return None;
        },
    };
    let keywords = match &entry.keywords {
        Some(keywords) => copy_texts(keywords),
        None => Vec::new(),
    };
    let app = App {
        name,
        description: copy_text(&entry.comment),
        keywords,
        path: entry.path.clone(),
        icon_path: copy_text(&entry.icon_path),
    };
    proof {
        if entry.keywords is None {
            assert(texts_view(app.keywords@) =~= Seq::<Seq<char>>::empty());
        }
    }
    Some(app)
}

/// Builds the index from the desktop entries found, in the order found.
pub fn index_apps(entries: &Vec<EntryDescriptor>) -> (apps: Vec<App>)
    ensures
        apps_view(apps@) == indexed_apps(entries_view(entries@)),
{
    let ghost all = entries_view(entries@);
    let mut apps: Vec<App> = Vec::new();
    let mut i: usize = 0;
    assert(apps_view(apps@) =~= all.take(0).filter_map(entry_pick()));
    while i < entries.len()
        invariant
            i <= entries.len(),
            all == entries_view(entries@),
            apps_view(apps@) == all.take(i as int).filter_map(entry_pick()),
        decreases entries.len() - i,
    {
        let ghost before = apps@;
        proof {
            all.lemma_filter_map_take_succ(entry_pick(), i as int);
            assert(all[i as int] == entries@[i as int]@);
        }
        match index_entry(&entries[i]) {
            Some(app) => {
                apps.push(app);
                assert(apps_view(apps@) =~= apps_view(before) + seq![app@]);
            },
            None => {},
        }
        i = i + 1;
    }
    assert(all.take(i as int) =~= all);
    apps
}

/// Whether `text` matches the name of `app` or one of its keywords.
pub open spec fn app_matches(app: AppView, text: Seq<char>) -> bool {
    fuzzy_match(app.name, text) || any_fuzzy_match(app.keywords, text)
}

/// The candidate that launches an application.
pub open spec fn app_result(app: AppView) -> TUIResultView {
    TUIResultView {
        title: app.name,
        category: "app"@,
        secondary_text: Some(
            match app.description {
                Some(d) => d,
                None => "Application"@,
            },
        ),
        icon_path: app.icon_path,
        action: ActionView::OpenApp { path: app.path },
    }
}

/// The candidate, if any, that `app` contributes to a search for `text`.
pub open spec fn app_pick(text: Seq<char>) -> spec_fn(AppView) -> Option<TUIResultView> {
    |app: AppView|
        if app_matches(app, text) {
            Some(app_result(app))
        } else {
            None
        }
}

/// What a search for `text` finds in `apps`: one candidate per matching
/// application, in index order.
pub open spec fn app_results(apps: Seq<AppView>, text: Seq<char>) -> Seq<TUIResultView> {
    apps.filter_map(app_pick(text))
}

/// Builds the candidate that launches `app`.
fn app_candidate(app: &App) -> (r: TUIResult)
    ensures
        r@ == app_result(app@),
{
    let mut result = TUIResult::new(
        app.name.as_str(),
        "app",
        Action::OpenApp(OpenApp::new(app.path.as_str())),
    );
    result = match &app.description {
        Some(description) => result.set_secondary_text(description.as_str()),
        None => result.set_secondary_text("Application"),
    };
    match &app.icon_path {
        Some(icon_path) => {
            result.set_icon_path(icon_path.as_str());
        },
        None => {},
    }
    result
}

/// The candidate for an application.
pub open spec fn app_maker() -> spec_fn(AppView) -> TUIResultView {
    |app: AppView| app_result(app)
}

/// One candidate per marked application, in index order.
pub open spec fn marked_app_candidates(apps: Seq<AppView>, marks: Seq<bool>) -> Seq<TUIResultView> {
    marked(apps, marks).map_values(app_maker())
}

/// Builds one candidate per application whose mark is set. Application `i`
/// is marked when `marks[i]` exists and is true.
pub fn apps_where(apps: &Vec<App>, marks: &Vec<bool>) -> (out: Vec<TUIResult>)
    ensures
        results_view(out@) == marked_app_candidates(apps_view(apps@), marks@),
{
    let ghost all = apps_view(apps@);
    let mut out: Vec<TUIResult> = Vec::new();
    let mut i: usize = 0;
    assert(results_view(out@) =~= marked_app_candidates(all.take(0), marks@));
    while i < apps.len()
        invariant
            i <= apps.len(),
            all == apps_view(apps@),
            results_view(out@) == marked_app_candidates(all.take(i as int), marks@),
        decreases apps.len() - i,
    {
        let ghost before = out@;
        proof {
            lemma_marked_take(all, marks@, i as int);
            assert(all[i as int] == apps@[i as int]@);
        }
        if i < marks.len() && marks[i] {
            let candidate = app_candidate(&apps[i]);
            out.push(candidate);
            assert(results_view(out@) =~= results_view(before).push(candidate@));
        }
        i = i + 1;
    }
    assert(all.take(i as int) =~= all);
    out
}

/// Marks the applications whose name or keywords match `text`.
pub fn match_apps(apps: &Vec<App>, text: &str) -> (marks: Vec<bool>)
    ensures
        marks@.len() == apps@.len(),
        forall|i: int|
            0 <= i < marks@.len() ==> marks@[i] == app_matches((#[trigger] apps@[i])@, text@),
{
    let mut marks: Vec<bool> = Vec::new();
    let mut i: usize = 0;
    while i < apps.len()
        invariant
            i <= apps.len(),
            marks@.len() == i,
            forall|j: int| 0 <= j < i ==> marks@[j] == app_matches((#[trigger] apps@[j])@, text@),
        decreases apps.len() - i,
    {
        let app = &apps[i];
        marks.push(any_matches(&app.keywords, text) || fuzzy_matches(app.name.as_str(), text));
        i = i + 1;
    }
    marks
}

/// Searches the index for `text`.
pub fn get_app_results(apps: &Vec<App>, text: &str) -> (out: Vec<TUIResult>)
    ensures
        results_view(out@) == app_results(apps_view(apps@), text@),
{
    let marks = match_apps(apps, text);
    proof {
        lemma_marked_is_filter_map(apps_view(apps@), marks@, app_maker(), app_pick(text@));
    }
    apps_where(apps, &marks)
}

/// What kind of change a watched directory reports.
#[derive(Debug, Clone, Copy, PartialEq, Eq, Structural)]
pub enum ChangeKind {
    /// A file or directory was created.
    Create,
    /// The content of a file changed.
    ModifyData,
    /// A name or metadata changed, or a change of no stated kind.
    ModifyOther,
    /// A file or directory was removed.
    Remove,
    /// A file was read or opened, or anything else happened.
    Other,
}

/// Whether a change of this kind makes the index stale.
pub open spec fn invalidates_index(kind: ChangeKind) -> bool {
    kind is Create || kind is ModifyData || kind is Remove
}

/// Tells whether the index has to be rebuilt after a change of this kind.
pub fn needs_rebuild(kind: ChangeKind) -> (b: bool)
    ensures
        b == invalidates_index(kind),
{
    match kind {
        ChangeKind::Create => true,
        ChangeKind::ModifyData => true,
        ChangeKind::Remove => true,
        ChangeKind::ModifyOther => false,
        ChangeKind::Other => false,
    }
}

/// Building the index twice from the same entries gives the same index: the
/// index is determined by the entries, in their order, and by nothing else.
pub proof fn lemma_rebuild_is_deterministic(first: Seq<EntryView>, second: Seq<EntryView>)
    requires
        first =~= second,
    ensures
        indexed_apps(first) == indexed_apps(second),
{
}

/// Every application of the index comes from an entry that is shown, is an
/// application and has the application's name.
pub proof fn lemma_indexed_from_entries(entries: Seq<EntryView>, app: AppView)
    requires
        indexed_apps(entries).contains(app),
    ensures
        exists|e: EntryView| #[trigger] entries.contains(e) && indexable(e) && app == app_of(e),
{
    entries.lemma_filter_map_contains(entry_pick(), app);
    let e = choose|e: EntryView| #[trigger] entries.contains(e) && entry_pick()(e) == Some(app);
    assert(entries.contains(e) && indexable(e) && app == app_of(e));
}

/// A search finds nothing in the index exactly when no application matches.
pub proof fn lemma_no_app_results(apps: Seq<AppView>, text: Seq<char>)
    ensures
        app_results(apps, text).len() == 0 <==> forall|i: int|
            0 <= i < apps.len() ==> !app_matches(#[trigger] apps[i], text),
    decreases apps.len(),
{
    if apps.len() > 0 {
        let rest = apps.drop_last();
        lemma_no_app_results(rest, text);
        if app_results(apps, text).len() == 0 {
            assert forall|i: int| 0 <= i < apps.len() implies !app_matches(
                #[trigger] apps[i],
                text,
            ) by {
                if i < rest.len() {
                    assert(apps[i] == rest[i]);
                }
            }
        } else if app_results(rest, text).len() > 0 {
            let i = choose|i: int| 0 <= i < rest.len() && app_matches(#[trigger] rest[i], text);
            assert(apps[i] == rest[i]);
        } else {
            assert(app_matches(apps[apps.len() - 1], text));
        }
    }
}

/// Every candidate found in the index is an application's.
pub proof fn lemma_app_results_category(apps: Seq<AppView>, text: Seq<char>, r: TUIResultView)
    requires
        app_results(apps, text).contains(r),
    ensures
        r.category == "app"@,
{
    apps.lemma_filter_map_contains(app_pick(text), r);
}

} // verus!
