//! Result candidates and the actions they carry.

use vstd::prelude::*;
use vstd::string::*;

verus! {

/// A power or session command.
#[derive(Debug, Clone, Copy, PartialEq, Eq, Structural)]
pub enum Session {
    Shutdown,
    Restart,
    Suspend,
    Logout,
}

/// A request to store a new bookmark.
#[derive(Debug, Clone, PartialEq, Eq)]
pub struct AddBookmark {
    pub name: String,
    pub url: String,
}

/// A request to delete the bookmark with this id.
#[derive(Debug, Clone, PartialEq, Eq)]
pub struct RemoveBookmark {
    pub id: u64,
}

/// A change to the stored bookmarks.
#[derive(Debug, Clone, PartialEq, Eq)]
pub enum Bookmark {
    Add(AddBookmark),
    Remove(RemoveBookmark),
}

/// Launch the application described by the desktop entry at `path`.
#[derive(Debug, Clone, PartialEq, Eq)]
pub struct OpenApp {
    pub path: String,
}

/// Open `url` with the system's handler.
#[derive(Debug, Clone, PartialEq, Eq)]
pub struct OpenURL {
    pub url: String,
}

/// Put `text` on the clipboard.
#[derive(Debug, Clone, PartialEq, Eq)]
pub struct CopyText {
    pub text: String,
}

/// Put the image stored at `path` on the clipboard.
#[derive(Debug, Clone, PartialEq, Eq)]
pub struct CopyImage {
    pub path: String,
}

/// What selecting a result should do. The library only builds these values;
/// carrying them out is the caller's business.
#[derive(Debug, Clone, PartialEq, Eq)]
pub enum Action {
    OpenApp(OpenApp),
    OpenURL(OpenURL),
    CopyText(CopyText),
    CopyImage(CopyImage),
    ShowResults,
    OpenSettings,
    Session(Session),
    Bookmark(Bookmark),
}

/// The mathematical value of an [`Action`].
pub enum ActionView {
    OpenApp { path: Seq<char> },
    OpenURL { url: Seq<char> },
    CopyText { text: Seq<char> },
    CopyImage { path: Seq<char> },
    ShowResults,
    OpenSettings,
    Session(Session),
    AddBookmark { name: Seq<char>, url: Seq<char> },
    RemoveBookmark { id: u64 },
}

impl View for Action {
    type V = ActionView;

    open spec fn view(&self) -> ActionView {
        match *self {
            Action::OpenApp(a) => ActionView::OpenApp { path: a.path@ },
            Action::OpenURL(a) => ActionView::OpenURL { url: a.url@ },
            Action::CopyText(a) => ActionView::CopyText { text: a.text@ },
            Action::CopyImage(a) => ActionView::CopyImage { path: a.path@ },
            Action::ShowResults => ActionView::ShowResults,
            Action::OpenSettings => ActionView::OpenSettings,
            Action::Session(s) => ActionView::Session(s),
            Action::Bookmark(Bookmark::Add(a)) => ActionView::AddBookmark { name: a.name@, url: a.url@ },
            Action::Bookmark(Bookmark::Remove(r)) => ActionView::RemoveBookmark { id: r.id },
        }
    }
}

impl OpenApp {
    pub fn new(path: &str) -> (a: OpenApp)
        ensures
            a.path@ == path@,
    {
        OpenApp { path: String::from_str(path) }
    }
}

impl OpenURL {
    pub fn new(url: &str) -> (a: OpenURL)
        ensures
            a.url@ == url@,
    {
        OpenURL { url: String::from_str(url) }
    }
}

impl CopyText {
    pub fn new(text: &str) -> (a: CopyText)
        ensures
            a.text@ == text@,
    {
        CopyText { text: String::from_str(text) }
    }
}

/// The view of an optional text.
pub open spec fn text_view(t: Option<String>) -> Option<Seq<char>> {
    match t {
        Some(s) => Some(s@),
        None => None,
    }
}

/// One candidate in a result list.
#[derive(Debug, Clone, PartialEq, Eq)]
pub struct TUIResult {
    pub title: String,
    /// The provider that offers the candidate.
    pub category: String,
    /// A second line shown under the title.
    pub secondary_text: Option<String>,
    pub icon_path: Option<String>,
    pub action: Action,
}

/// The mathematical value of a [`TUIResult`].
pub struct TUIResultView {
    pub title: Seq<char>,
    pub category: Seq<char>,
    pub secondary_text: Option<Seq<char>>,
    pub icon_path: Option<Seq<char>>,
    pub action: ActionView,
}

impl View for TUIResult {
    type V = TUIResultView;

    open spec fn view(&self) -> TUIResultView {
        TUIResultView {
            title: self.title@,
            category: self.category@,
            secondary_text: text_view(self.secondary_text),
            icon_path: text_view(self.icon_path),
            action: self.action@,
        }
    }
}

/// The values of a list of candidates, in order.
pub open spec fn results_view(results: Seq<TUIResult>) -> Seq<TUIResultView> {
    results.map_values(|r: TUIResult| r@)
}

/// A candidate with a title, a category and an action, and nothing else.
pub open spec fn plain_result(title: Seq<char>, category: Seq<char>, action: ActionView) -> TUIResultView {
    TUIResultView { title, category, secondary_text: None, icon_path: None, action }
}

impl TUIResult {
    /// A candidate without secondary text and icon.
    pub fn new(title: &str, category: &str, action: Action) -> (r: TUIResult)
        ensures
            r@ == plain_result(title@, category@, action@),
    {
        TUIResult {
            title: String::from_str(title),
            category: String::from_str(category),
            secondary_text: None,
            icon_path: None,
            action,
        }
    }

    /// The same candidate with `text` as its second line.
    pub fn set_secondary_text(self, text: &str) -> (r: TUIResult)
        ensures
            r@ == (TUIResultView { secondary_text: Some(text@), ..self@ }),
    {
        TUIResult {
            title: self.title,
            category: self.category,
            secondary_text: Some(String::from_str(text)),
            icon_path: self.icon_path,
            action: self.action,
        }
    }

    /// The same candidate with `action` in place of its action.
    pub fn set_action(self, action: Action) -> (r: TUIResult)
        ensures
            r@ == (TUIResultView { action: action@, ..self@ }),
    {
        TUIResult {
            title: self.title,
            category: self.category,
            secondary_text: self.secondary_text,
            icon_path: self.icon_path,
            action,
        }
    }

    /// Gives the candidate the icon stored at `path`.
    pub fn set_icon_path(&mut self, path: &str)
        ensures
            final(self)@ == (TUIResultView { icon_path: Some(path@), ..old(self)@ }),
    {
        self.icon_path = Some(String::from_str(path));
    }
}

} // verus!
