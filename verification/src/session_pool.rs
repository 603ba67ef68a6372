//! The window sessions of the first API: which sessions exist, the limit on
//! their number, which ones have been idle too long, and the decisions a
//! session's window thread makes (its title, the action to perform for an
//! `act` step, and the steps of an in-page screenshot capture).

use vstd::prelude::*;

use crate::session::{ActionItem, SessionOptions, SessionStatus, SessionStatusInfo};
use crate::strops::{trim_end_char, trim_end_char_str, trim_start_char, trim_start_char_str};
use crate::table::{Keyed, Table};
use crate::text::{decimal, owned, push_decimal, push_str, starts_with_seq, str_eq, str_starts_with};

verus! {

/// The name `Debug` gives a status.
pub open spec fn status_name_of(s: SessionStatus) -> Seq<char> {
    match s {
        SessionStatus::Initializing => "Initializing"@,
        SessionStatus::Ready => "Ready"@,
        SessionStatus::Busy => "Busy"@,
        SessionStatus::Error => "Error"@,
    }
}

/// The name of a status, as the API reports it.
pub fn status_name(s: SessionStatus) -> (r: &'static str)
    ensures
        r@ == status_name_of(s),
{
    match s {
        SessionStatus::Initializing => "Initializing",
        SessionStatus::Ready => "Ready",
        SessionStatus::Busy => "Busy",
        SessionStatus::Error => "Error",
    }
}

/// What the pool knows of one window session.
#[derive(Debug, Clone)]
pub struct SessionEntry {
    pub id: String,
    pub options: SessionOptions,
    pub status: SessionStatus,
    pub current_url: Option<String>,
}

impl Keyed for SessionEntry {
    open spec fn key_view(&self) -> Seq<char> {
        self.id@
    }

    fn key_str(&self) -> (r: &str) {
        self.id.as_str()
    }
}

/// `Maximum session limit reached (<count>/<max>). Release unused sessions:
/// wb session release <name> or POST /session/release`.
pub open spec fn session_limit_message(count: nat, max: nat) -> Seq<char> {
    "Maximum session limit reached ("@ + decimal(count) + "/"@ + decimal(max)
        + "). Release unused sessions: wb session release <name> or POST /session/release"@
}

/// `Session not found: <id>`.
pub open spec fn session_not_found_message(id: Seq<char>) -> Seq<char> {
    "Session not found: "@ + id
}

/// The window sessions, by id, and their limit.
pub struct SessionPool {
    pub sessions: Table<SessionEntry>,
    pub max_sessions: usize,
    pub idle_timeout_secs: u64,
}

impl SessionPool {
    /// Well-formedness: session ids are distinct.
    pub open spec fn wf(&self) -> bool {
        self.sessions.wf()
    }

    /// No sessions, at most `max_sessions`, idle after five minutes.
    pub fn new(max_sessions: usize) -> (r: Self)
        ensures
            r.wf(),
            r.sessions@ == Map::<Seq<char>, SessionEntry>::empty(),
            r.max_sessions == max_sessions,
            r.idle_timeout_secs == 300,
    {
        Self::with_idle_timeout(max_sessions, 300)
    }

    /// No sessions, at most `max_sessions`, idle after `idle_timeout_secs`.
    pub fn with_idle_timeout(max_sessions: usize, idle_timeout_secs: u64) -> (r: Self)
        ensures
            r.wf(),
            r.sessions@ == Map::<Seq<char>, SessionEntry>::empty(),
            r.max_sessions == max_sessions,
            r.idle_timeout_secs == idle_timeout_secs,
    {
        SessionPool { sessions: Table::new(), max_sessions, idle_timeout_secs }
    }

    /// The idle timeout, in seconds.
    pub fn get_idle_timeout(&self) -> (r: u64)
        ensures
            r == self.idle_timeout_secs,
    {
        self.idle_timeout_secs
    }

    /// The number of sessions.
    pub fn get_session_count(&self) -> (n: usize)
        requires
            self.wf(),
        ensures
            n == self.sessions@.dom().len(),
    {
        self.sessions.len()
    }

    /// Records a new session `id` with `options`, initializing, when the
    /// limit allows one more; otherwise the limit error, and nothing changes.
    pub fn create_session(&mut self, id: String, options: SessionOptions) -> (r: Result<(), String>)
        requires
            old(self).wf(),
            !old(self).sessions@.contains_key(id@),
        ensures
            final(self).wf(),
            final(self).max_sessions == old(self).max_sessions,
            final(self).idle_timeout_secs == old(self).idle_timeout_secs,
            old(self).sessions@.dom().len() >= old(self).max_sessions ==> (r matches Err(e)
                && e@ == session_limit_message(old(self).sessions@.dom().len(), old(self).max_sessions as nat)
                && final(self).sessions@ == old(self).sessions@),
            old(self).sessions@.dom().len() < old(self).max_sessions ==> (r is Ok
                && final(self).sessions@ == old(self).sessions@.insert(
                    id@,
                    SessionEntry { id, options, status: SessionStatus::Initializing, current_url: None },
                )),
            old(self).sessions@.dom().len() <= old(self).max_sessions
                ==> final(self).sessions@.dom().len() <= final(self).max_sessions,
    {
        let count = self.sessions.len();
        if count >= self.max_sessions {
            let mut e = owned("Maximum session limit reached (");
            push_decimal(&mut e, count as u64);
            push_str(&mut e, "/");
            push_decimal(&mut e, self.max_sessions as u64);
            push_str(&mut e, "). Release unused sessions: wb session release <name> or POST /session/release");
            return Err(e);
        }
        let entry = SessionEntry { id, options, status: SessionStatus::Initializing, current_url: None };
        proof {
            self.sessions.lemma_finite();
        }
        let _ = self.sessions.insert(entry);
        Ok(())
    }

    /// The status of session `id`.
    pub fn get_session_status(&self, id: &str) -> (r: Option<SessionStatus>)
        requires
            self.wf(),
        ensures
            match r {
                Some(s) => self.sessions@.contains_key(id@) && s == self.sessions@[id@].status,
                None => !self.sessions@.contains_key(id@),
            },
    {
        match self.sessions.get(id) {
            Some(e) => Some(e.status),
            None => None,
        }
    }

    /// What the API reports of session `id`: its id, status name, URL and
    /// options.
    pub fn get_info(&self, id: &str) -> (r: Result<SessionStatusInfo, String>)
        requires
            self.wf(),
        ensures
            !self.sessions@.contains_key(id@) ==> (r matches Err(e) && e@ == session_not_found_message(id@)),
            self.sessions@.contains_key(id@) ==> (r matches Ok(info) && {
                let e = self.sessions@[id@];
                &&& info.id@ == e.id@
                &&& info.status@ == status_name_of(e.status)
                &&& crate::text::opt_str_view(info.url) == crate::text::opt_str_view(e.current_url)
                &&& info.options is Some
            }),
    {
        match self.sessions.get(id) {
            Some(e) => {
                let url = match &e.current_url {
                    Some(u) => Some(u.clone()),
                    None => None,
                };
                Ok(SessionStatusInfo {
                    id: e.id.clone(),
                    status: owned(status_name(e.status)),
                    url,
                    options: Some(e.options.clone()),
                })
            },
            None => {
                let mut m = owned("Session not found: ");
                push_str(&mut m, id);
                Err(m)
            },
        }
    }

    /// Sets the status of session `id`, if it exists.
    pub fn set_status(&mut self, id: &str, status: SessionStatus)
        requires
            old(self).wf(),
        ensures
            final(self).wf(),
            final(self).max_sessions == old(self).max_sessions,
            final(self).idle_timeout_secs == old(self).idle_timeout_secs,
            !old(self).sessions@.contains_key(id@) ==> final(self).sessions@ == old(self).sessions@,
            old(self).sessions@.contains_key(id@) ==> final(self).sessions@ == old(self).sessions@.insert(
                id@,
                SessionEntry { status, ..old(self).sessions@[id@] },
            ),
    {
        match self.sessions.remove(id) {
            Some(mut e) => {
                e.status = status;
                let _ = self.sessions.insert(e);
            },
            None => {},
        }
    }

    /// Records that session `id` now shows `url`, if it exists.
    pub fn set_current_url(&mut self, id: &str, url: String)
        requires
            old(self).wf(),
        ensures
            final(self).wf(),
            final(self).max_sessions == old(self).max_sessions,
            final(self).idle_timeout_secs == old(self).idle_timeout_secs,
            !old(self).sessions@.contains_key(id@) ==> final(self).sessions@ == old(self).sessions@,
            old(self).sessions@.contains_key(id@) ==> final(self).sessions@ == old(self).sessions@.insert(
                id@,
                SessionEntry { current_url: Some(url), ..old(self).sessions@[id@] },
            ),
    {
        match self.sessions.remove(id) {
            Some(mut e) => {
                e.current_url = Some(url);
                let _ = self.sessions.insert(e);
            },
            None => {},
        }
    }

    /// Forgets session `id`; an unknown id is an error.
    pub fn remove_session(&mut self, id: &str) -> (r: Result<(), String>)
        requires
            old(self).wf(),
        ensures
            final(self).wf(),
            final(self).max_sessions == old(self).max_sessions,
            final(self).idle_timeout_secs == old(self).idle_timeout_secs,
            final(self).sessions@ == old(self).sessions@.remove(id@),
            r is Ok <==> old(self).sessions@.contains_key(id@),
            r matches Err(e) ==> e@ == session_not_found_message(id@),
    {
        match self.sessions.remove(id) {
            Some(_) => Ok(()),
            None => {
                let mut m = owned("Session not found: ");
                push_str(&mut m, id);
                Err(m)
            },
        }
    }
}

/// A session idle for `idle` (seconds, nanoseconds) has exceeded a timeout
/// of `timeout_secs` whole seconds (strictly longer).
pub open spec fn idle_exceeds(idle: (u64, u32), timeout_secs: u64) -> bool {
    idle.0 > timeout_secs || (idle.0 == timeout_secs && idle.1 > 0)
}

/// The ids of the sessions idle longer than the timeout, in the order given;
/// `idle` pairs each session id with how long it has been idle.
pub fn idle_session_ids(idle: &Vec<(String, (u64, u32))>, timeout_secs: u64) -> (r: Vec<String>)
    ensures
        r@.len() <= idle@.len(),
        crate::text::views(r@) == idle@.filter(|e: (String, (u64, u32))| idle_exceeds(e.1, timeout_secs)).map_values(
            |e: (String, (u64, u32))| e.0@,
        ),
{
    let ghost f = |e: (String, (u64, u32))| idle_exceeds(e.1, timeout_secs);
    let ghost g = |e: (String, (u64, u32))| e.0@;
    let mut r: Vec<String> = Vec::new();
    let mut i: usize = 0;
    while i < idle.len()
        invariant
            i <= idle@.len(),
            f == (|e: (String, (u64, u32))| idle_exceeds(e.1, timeout_secs)),
            g == (|e: (String, (u64, u32))| e.0@),
            crate::text::views(r@) == idle@.take(i as int).filter(f).map_values(g),
            r@.len() <= i,
        decreases idle@.len() - i,
    {
        proof {
            reveal(Seq::filter);
            assert(idle@.take(i + 1).drop_last() =~= idle@.take(i as int));
            assert(idle@.take(i + 1).last() == idle@[i as int]);
        }
        let (secs, nanos) = idle[i].1;
        if secs > timeout_secs || (secs == timeout_secs && nanos > 0) {
            let ghost before = r@;
            r.push(idle[i].0.clone());
            proof {
                assert(crate::text::views(r@) =~= crate::text::views(before).push(idle@[i as int].0@));
            }
        }
        i = i + 1;
    }
    assert(idle@.take(i as int) =~= idle@);
    r
}

// ---------------------------------------------------------------------------
// The window thread's decisions
// ---------------------------------------------------------------------------

/// The answer to a command sent to a window that is not ready.
pub const NOT_ACQUIRED_MESSAGE: &'static str =
    "Session is not acquired. Call 'wb session acquire <name>' or POST /session/acquire first.";

/// The title of a session's window: `WB: <title>` when a title is given,
/// `WebView Bridge - <id>` otherwise.
pub open spec fn window_title_of(options: SessionOptions, id: Seq<char>) -> Seq<char> {
    match options.window_title {
        Some(t) => "WB: "@ + t@,
        None => "WebView Bridge - "@ + id,
    }
}

/// The title of a session's window.
pub fn window_title(options: &SessionOptions, id: &str) -> (r: String)
    ensures
        r@ == window_title_of(*options, id@),
{
    match &options.window_title {
        Some(t) => {
            let mut r = owned("WB: ");
            push_str(&mut r, t.as_str());
            r
        },
        None => {
            let mut r = owned("WebView Bridge - ");
            push_str(&mut r, id);
            r
        },
    }
}

/// What an `act` step does in the window.
#[derive(Debug, Clone, PartialEq, Eq)]
pub enum ActStep {
    /// Click the element matching the selector.
    Click { selector: String },
    /// Type text into the element matching the selector.
    Type { selector: String, text: String },
    /// Press a key.
    Press { key: String },
}

/// An optional text, empty when absent.
pub open spec fn or_empty(o: Option<String>) -> Seq<char> {
    match o {
        Some(s) => s@,
        None => Seq::empty(),
    }
}

fn text_or_empty(o: &Option<String>) -> (r: String)
    ensures
        r@ == or_empty(*o),
{
    match o {
        Some(s) => s.clone(),
        None => String::new(),
    }
}

/// The step an `act` item asks for: `click` (target), `type` (target and
/// text) or `press` (key given as text), absent values read as empty; any
/// other kind is refused.
pub fn plan_act(action: &ActionItem) -> (r: Result<ActStep, String>)
    ensures
        action.kind@ == "click"@ ==> (r matches Ok(ActStep::Click { selector }) && selector@ == or_empty(action.ref_attr)),
        action.kind@ == "type"@ ==> (r matches Ok(ActStep::Type { selector, text }) && selector@ == or_empty(action.ref_attr)
            && text@ == or_empty(action.text)),
        action.kind@ == "press"@ ==> (r matches Ok(ActStep::Press { key }) && key@ == or_empty(action.text)),
        action.kind@ != "click"@ && action.kind@ != "type"@ && action.kind@ != "press"@ ==> (r matches Err(e)
            && e@ == "Unknown action kind: "@ + action.kind@),
{
    let k = action.kind.as_str();
    proof {
        reveal_strlit("click");
        reveal_strlit("type");
        reveal_strlit("press");
        assert("click"@.len() == 5 && "type"@.len() == 4 && "press"@.len() == 5);
        assert("click"@[0] != "press"@[0]);
    }
    if str_eq(k, "click") {
        Ok(ActStep::Click { selector: text_or_empty(&action.ref_attr) })
    } else if str_eq(k, "type") {
        Ok(ActStep::Type { selector: text_or_empty(&action.ref_attr), text: text_or_empty(&action.text) })
    } else if str_eq(k, "press") {
        Ok(ActStep::Press { key: text_or_empty(&action.text) })
    } else {
        let mut e = owned("Unknown action kind: ");
        push_str(&mut e, k);
        Err(e)
    }
}

/// The reply to a completed `act` step.
pub fn act_reply(step: &ActStep) -> (r: &'static str)
    ensures
        r@ == (match step {
            ActStep::Click { .. } => "Clicked"@,
            ActStep::Type { .. } => "Text typed"@,
            ActStep::Press { .. } => "Key pressed"@,
        }),
{
    match step {
        ActStep::Click { .. } => "Clicked",
        ActStep::Type { .. } => "Text typed",
        ActStep::Press { .. } => "Key pressed",
    }
}

/// How many times an in-page capture is polled (every 100 ms, fifteen
/// seconds in all).
pub const CAPTURE_POLLS: u32 = 150;

/// What to do after one poll of an in-page capture.
#[derive(Debug, Clone, PartialEq, Eq)]
pub enum CaptureStep {
    /// Nothing yet: poll again.
    KeepPolling,
    /// The capture is done: fetch its data.
    FetchData,
    /// The capture failed with this error.
    Failed(String),
}

/// The step after a poll that reported `status`, whether data is ready,
/// and the error text if any.
pub fn capture_poll_step(status: &str, has_data: bool, error: Option<&str>) -> (r: CaptureStep)
    ensures
        status@ == "done"@ && has_data ==> r == CaptureStep::FetchData,
        !(status@ == "done"@ && has_data) && status@ == "error"@ ==> (r matches CaptureStep::Failed(e)
            && e@ == "html2canvas failed: "@ + (match error {
                Some(x) => x@,
                None => "Unknown error"@,
            })),
        !(status@ == "done"@ && has_data) && status@ != "error"@ ==> r == CaptureStep::KeepPolling,
{
    if str_eq(status, "done") && has_data {
        CaptureStep::FetchData
    } else if str_eq(status, "error") {
        let mut e = owned("html2canvas failed: ");
        match error {
            Some(x) => push_str(&mut e, x),
            None => push_str(&mut e, "Unknown error"),
        }
        CaptureStep::Failed(e)
    } else {
        CaptureStep::KeepPolling
    }
}

/// Captured image data as returned by the page: without the surrounding
/// double quotes.
pub open spec fn unquoted(raw: Seq<char>) -> Seq<char> {
    trim_end_char(trim_start_char(raw, '"'), '"')
}

/// The fetched capture data, accepted when it looks like a PNG in base64
/// (`iVBOR...`) or is longer than 1000 bytes (in UTF-8); `None` to keep
/// polling.
pub fn accept_capture_data(raw: &str) -> (r: Option<String>)
    ensures
        match r {
            Some(d) => d@ == unquoted(raw@) && (starts_with_seq(d@, "iVBOR"@)
                || (vstd::utf8::encode_utf8(d@).len() as usize) > 1000),
            None => !starts_with_seq(unquoted(raw@), "iVBOR"@) && (vstd::utf8::encode_utf8(unquoted(raw@)).len() as usize) <= 1000,
        },
{
    let a = trim_start_char_str(raw, '"');
    let d = trim_end_char_str(a.as_str(), '"');
    if str_starts_with(d.as_str(), "iVBOR") || d.as_str().len() > 1000 {
        Some(d)
    } else {
        None
    }
}

} // verus!
