//! Session commands: shut down, restart, suspend, log out.

use vstd::prelude::*;
use vstd::string::*;
use crate::fuzzy::{fuzzy_match, fuzzy_matches, texts_view};
use crate::text::same_text;
use crate::result::{plain_result, results_view, Action, ActionView, Session, TUIResult, TUIResultView};

verus! {

/// The candidate for one session command if it is `offered`, else nothing.
pub open spec fn session_offer(
    title: Seq<char>,
    category: Seq<char>,
    session: Session,
    offered: bool,
) -> Seq<TUIResultView> {
    if offered {
        seq![plain_result(title, category, ActionView::Session(session))]
    } else {
        Seq::empty()
    }
}

/// The candidates for those of shutdown, restart, suspend and logout, in this
/// order, that are offered.
pub open spec fn session_offers(shutdown: bool, restart: bool, suspend: bool, logout: bool) -> Seq<
    TUIResultView,
> {
    session_offer("Shutdown"@, "shutdown"@, Session::Shutdown, shutdown) + session_offer(
        "Restart"@,
        "restart"@,
        Session::Restart,
        restart,
    ) + session_offer("Suspend"@, "suspend"@, Session::Suspend, suspend) + session_offer(
        "Logout"@,
        "logout"@,
        Session::Logout,
        logout,
    )
}

/// What the session provider answers to `text`: it offers each command whose
/// label `text` matches.
pub open spec fn session_results(text: Seq<char>) -> Seq<TUIResultView> {
    session_offers(
        fuzzy_match("shutdown/poweroff"@, text),
        fuzzy_match("restart/reboot"@, text),
        fuzzy_match("suspend"@, text),
        fuzzy_match("logout"@, text),
    )
}

/// Appends the candidate for `session` to `out` if it is offered.
fn offer_session(
    out: &mut Vec<TUIResult>,
    title: &str,
    category: &str,
    session: Session,
    offered: bool,
)
    ensures
        results_view(final(out)@) == results_view(old(out)@) + session_offer(
            title@,
            category@,
            session,
            offered,
        ),
{
    let ghost before = out@;
    if offered {
        let candidate = TUIResult::new(title, category, Action::Session(session));
        out.push(candidate);
        assert(results_view(out@) =~= results_view(before) + seq![candidate@]);
    } else {
        assert(results_view(out@) =~= results_view(before) + Seq::<TUIResultView>::empty());
    }
}

/// Builds the candidates for the session commands that are offered.
pub fn session_candidates(shutdown: bool, restart: bool, suspend: bool, logout: bool) -> (out: Vec<
    TUIResult,
>)
    ensures
        results_view(out@) == session_offers(shutdown, restart, suspend, logout),
{
    let mut out: Vec<TUIResult> = Vec::new();
    assert(results_view(out@) =~= Seq::<TUIResultView>::empty());
    offer_session(&mut out, "Shutdown", "shutdown", Session::Shutdown, shutdown);
    offer_session(&mut out, "Restart", "restart", Session::Restart, restart);
    offer_session(&mut out, "Suspend", "suspend", Session::Suspend, suspend);
    offer_session(&mut out, "Logout", "logout", Session::Logout, logout);
    assert(results_view(out@) =~= session_offers(shutdown, restart, suspend, logout));
    out
}

/// Answers a search text that the session keyword introduced.
pub fn get_session_results(search_text: &str) -> (out: Vec<TUIResult>)
    ensures
        results_view(out@) == session_results(search_text@),
{
    let shutdown = fuzzy_matches("shutdown/poweroff", search_text);
    let restart = fuzzy_matches("restart/reboot", search_text);
    let suspend = fuzzy_matches("suspend", search_text);
    let logout = fuzzy_matches("logout", search_text);
    session_candidates(shutdown, restart, suspend, logout)
}

/// The lower-case form of a text, as `str::to_lowercase` gives it.
pub uninterp spec fn lowercase(text: Seq<char>) -> Seq<char>;

/// Calls `str::to_lowercase`.
///
/// Trusted: the result depends on the text alone, not on a locale.
#[verifier::external_body]
fn to_lowercase(text: &str) -> (out: String)
    ensures
        out@ == lowercase(text@),
{
    text.to_lowercase()
}

/// The command line that logs out of the desktop environment whose name, in
/// lower case, is `desktop`.
pub open spec fn logout_command_line(desktop: Seq<char>) -> Seq<Seq<char>> {
    if desktop == "hyprland"@ {
        seq!["hyprctl"@, "dispatch"@, "exit"@]
    } else if desktop == "kde"@ {
        seq!["qdbus6"@, "org.kde.Shutdown"@, "/Shutdown"@, "org.kde.Shutdown.logout"@]
    } else {
        seq!["notify-send"@, "Missing Config for This Environment"@]
    }
}

/// The command line that carries out `session` on the desktop environment
/// named `desktop`. Only logging out depends on the desktop, and not on the
/// case of its name.
pub open spec fn session_command_line(session: Session, desktop: Seq<char>) -> Seq<Seq<char>> {
    match session {
        Session::Shutdown => seq!["systemctl"@, "poweroff"@],
        Session::Restart => seq!["systemctl"@, "reboot"@],
        Session::Suspend => seq!["systemctl"@, "suspend"@],
        Session::Logout => logout_command_line(lowercase(desktop)),
    }
}

/// Tells whether the command for `session` depends on the desktop environment.
pub fn needs_desktop(session: Session) -> (b: bool)
    ensures
        b == (session == Session::Logout),
{
    match session {
        Session::Logout => true,
        _ => false,
    }
}

/// A list of the given words.
fn words(first: &str, rest: &[&str]) -> (out: Vec<String>)
    ensures
        out@.len() == rest@.len() + 1,
        out@[0]@ == first@,
        forall|i: int| 0 <= i < rest@.len() ==> out@[i + 1]@ == rest@[i]@,
{
    let mut out: Vec<String> = Vec::new();
    out.push(String::from_str(first));
    let mut i: usize = 0;
    while i < rest.len()
        invariant
            i <= rest.len(),
            out@.len() == i + 1,
            out@[0]@ == first@,
            forall|j: int| 0 <= j < i ==> out@[j + 1]@ == rest@[j]@,
        decreases rest.len() - i,
    {
        out.push(String::from_str(rest[i]));
        i = i + 1;
    }
    out
}

/// Builds the command line that logs out of the desktop environment whose
/// name, in lower case, is `desktop`.
pub fn logout_command(desktop: &str) -> (out: Vec<String>)
    ensures
        texts_view(out@) == logout_command_line(desktop@),
{
    let out = if same_text(desktop, "hyprland") {
        words("hyprctl", &["dispatch", "exit"])
    } else if same_text(desktop, "kde") {
        words("qdbus6", &["org.kde.Shutdown", "/Shutdown", "org.kde.Shutdown.logout"])
    } else {
        words("notify-send", &["Missing Config for This Environment"])
    };
    assert(texts_view(out@) =~= logout_command_line(desktop@));
    out
}

/// Builds the command line that carries out `session`: the program, then its
/// arguments.
pub fn session_command(session: Session, desktop: &str) -> (out: Vec<String>)
    ensures
        texts_view(out@) == session_command_line(session, desktop@),
{
    match session {
        Session::Shutdown => {
            let out = words("systemctl", &["poweroff"]);
            assert(texts_view(out@) =~= session_command_line(session, desktop@));
            out
        },
        Session::Restart => {
            let out = words("systemctl", &["reboot"]);
            assert(texts_view(out@) =~= session_command_line(session, desktop@));
            out
        },
        Session::Suspend => {
            let out = words("systemctl", &["suspend"]);
            assert(texts_view(out@) =~= session_command_line(session, desktop@));
            out
        },
        Session::Logout => {
            let lowered = to_lowercase(desktop);
            logout_command(lowered.as_str())
        },
    }
}

/// Every candidate of the session provider is in one of its four categories.
pub proof fn lemma_session_results_category(text: Seq<char>, r: TUIResultView)
    requires
        session_results(text).contains(r),
    ensures
        r.category == "shutdown"@ || r.category == "restart"@ || r.category == "suspend"@
            || r.category == "logout"@,
{
    let a = session_offer(
        "Shutdown"@,
        "shutdown"@,
        Session::Shutdown,
        fuzzy_match("shutdown/poweroff"@, text),
    );
    let b = session_offer(
        "Restart"@,
        "restart"@,
        Session::Restart,
        fuzzy_match("restart/reboot"@, text),
    );
    let c = session_offer("Suspend"@, "suspend"@, Session::Suspend, fuzzy_match("suspend"@, text));
    let d = session_offer("Logout"@, "logout"@, Session::Logout, fuzzy_match("logout"@, text));
    let all = a + b + c + d;
    let i = choose|i: int| 0 <= i < all.len() && all[i] == r;
    if i < a.len() {
        assert(a[i] == r);
    } else if i < a.len() + b.len() {
        assert(b[i - a.len()] == r);
    } else if i < a.len() + b.len() + c.len() {
        assert(c[i - a.len() - b.len()] == r);
    } else {
        assert(d[i - a.len() - b.len() - c.len()] == r);
    }
}

} // verus!
