//! Named sessions: sessions addressed by a name, persisted with their
//! profile, authentication state, expiry and navigation history, and
//! acquired, released, suspended and destroyed by name.
//!
//! The manager keeps its sessions in a vector whose names are pairwise
//! distinct (`wf`); every operation keeps that invariant.  Reading and
//! writing `sessions.json` is left to the caller, which hands the library a
//! `SessionsFile` and takes one back.

use vstd::prelude::*;
use vstd::string::*;
use crate::clock::{
    add_hours_text, add_hours_base, chrono_add_hours, chrono_now_iso8601, expired_at,
    elapsed_at_least, has_elapsed, is_expired_at, is_iso8601_stamp, opt_view, parse_rfc3339,
    rfc3339_instant, utc_now,
};
use crate::session::SessionOptions;
use crate::text::{owned, push_str, str_eq, views};

verus! {

/// The default time-to-live of a named session, in hours (one week).
pub const DEFAULT_TTL_HOURS: u64 = 168;

/// The most navigation-history entries a session keeps.
pub const MAX_HISTORY: usize = 50;

/// Runtime handle of a named session: the id of its browser session.
#[derive(Debug, Clone)]
pub struct SessionHandle {
    pub id: String,
}

/// Authentication status of a session.
#[derive(Debug, Clone)]
pub struct AuthStatus {
    pub logged_in: bool,
    /// When the status was checked (ISO 8601).
    pub checked_at: Option<String>,
    pub username: Option<String>,
}

impl Default for AuthStatus {
    fn default() -> (r: Self)
        ensures
            !r.logged_in,
            r.checked_at is None,
            r.username is None,
    {
        AuthStatus { logged_in: false, checked_at: None, username: None }
    }
}

/// Persisted metadata of a named session.
#[derive(Debug, Clone)]
pub struct NamedSessionMeta {
    /// Session name (the key).
    pub name: String,
    /// Browser profile the session uses.
    pub profile: String,
    pub auth_status: AuthStatus,
    /// Last access (ISO 8601).
    pub last_accessed: String,
    /// Whether each release extends the expiry.
    pub auto_extend: bool,
    /// Creation time (ISO 8601).
    pub created_at: String,
    /// Time-to-live in hours; 0 means the session never expires.
    pub ttl_hours: u64,
    /// Expiry (ISO 8601), from the creation or last release plus the TTL.
    pub expires_at: Option<String>,
    /// Last URL the session showed.
    pub last_url: Option<String>,
    /// URLs visited, oldest first.
    pub navigation_history: Vec<String>,
    /// Whether acquiring the session restores its last URL.
    pub auto_restore: bool,
}

/// A named session: its metadata, its runtime handle when a window is open,
/// and whether a client currently holds it.
#[derive(Clone)]
pub struct NamedSession {
    pub meta: NamedSessionMeta,
    pub handle: Option<SessionHandle>,
    pub acquired: bool,
}

/// Contents of `sessions.json`: a version and the metadata of each session
/// under its name.
#[derive(Debug, Clone)]
pub struct SessionsFile {
    pub version: u32,
    pub sessions: Vec<(String, NamedSessionMeta)>,
}

impl SessionsFile {
    /// An empty file of the current version.
    pub fn new() -> (r: Self)
        ensures
            r.version == 1,
            r.sessions@.len() == 0,
    {
        SessionsFile { version: 1, sessions: Vec::new() }
    }
}

/// How to check whether a session is logged in.
#[derive(Debug, Clone)]
pub struct AuthCheckConfig {
    pub url: String,
    pub logged_in_selector: String,
    pub login_required_selector: Option<String>,
}

/// A request to acquire a named session.
#[derive(Debug, Clone)]
pub struct AcquireRequest {
    pub name: String,
    /// Profile for a new session (defaults to the session name).
    pub profile: Option<String>,
    /// Reuse the session when it exists.
    pub reuse: bool,
    /// Create the session when it does not exist.
    pub create_if_missing: bool,
    pub headless: bool,
    pub auth_check: Option<AuthCheckConfig>,
    /// Time-to-live in hours for a new session (0 = no expiry).
    pub ttl_hours: u64,
    /// Extend the expiry on each release.
    pub auto_extend: bool,
    /// Restore the last URL on acquire.
    pub restore: bool,
}

/// The answer to an acquire request.
#[derive(Debug, Clone)]
pub struct AcquireResponse {
    pub session: String,
    pub is_new: bool,
    pub profile: String,
    pub auth_status: Option<AuthStatus>,
    pub restored_url: Option<String>,
}

/// One session as the list API reports it.
#[derive(Debug, Clone)]
pub struct SessionListItem {
    pub name: String,
    pub profile: String,
    pub auth_status: AuthStatus,
    pub last_accessed: String,
    pub active: bool,
    pub acquired: bool,
    pub ttl_hours: u64,
    pub expires_at: Option<String>,
    pub expired: bool,
}

/// The list API's answer.
#[derive(Debug, Clone)]
pub struct ListSessionsResponse {
    pub sessions: Vec<SessionListItem>,
    pub total: usize,
}

/// Counts over the pool of named sessions.
#[derive(Debug, Clone, Copy)]
pub struct SessionPoolStats {
    pub total: usize,
    pub active: usize,
    pub acquired: usize,
    pub idle: usize,
    pub max_sessions: usize,
}

impl Default for SessionPoolStats {
    fn default() -> (r: Self)
        ensures
            r.total == 0 && r.active == 0 && r.acquired == 0 && r.idle == 0 && r.max_sessions == 0,
    {
        SessionPoolStats { total: 0, active: 0, acquired: 0, idle: 0, max_sessions: 0 }
    }
}

/// Default TTL of a new session, in hours.
pub fn default_ttl_hours() -> (r: u64)
    ensures
        r == DEFAULT_TTL_HOURS,
{
    DEFAULT_TTL_HOURS
}

/// Whether a session restores its last URL unless told otherwise.
pub fn default_auto_restore() -> (r: bool)
    ensures
        r,
{
    true
}

/// The default of the boolean request flags.
pub fn default_true() -> (r: bool)
    ensures
        r,
{
    true
}

// ---------------------------------------------------------------------------
// The model: a sequence of sessions with distinct names
// ---------------------------------------------------------------------------

/// The name under which a session is kept.
pub open spec fn key(s: NamedSession) -> Seq<char> {
    s.meta.name@
}

/// Some session in `seq` has the name `name`.
pub open spec fn has_name(seq: Seq<NamedSession>, name: Seq<char>) -> bool {
    exists|i: int| 0 <= i < seq.len() && key(#[trigger] seq[i]) == name
}

/// The position of the session named `name` (meaningful when `has_name`).
pub open spec fn index_of(seq: Seq<NamedSession>, name: Seq<char>) -> int {
    choose|i: int| 0 <= i < seq.len() && key(#[trigger] seq[i]) == name
}

/// No two sessions share a name.
pub open spec fn unique_names(seq: Seq<NamedSession>) -> bool {
    forall|i: int, j: int| 0 <= i < seq.len() && 0 <= j < seq.len() && i != j ==> key(#[trigger] seq[i]) != key(#[trigger] seq[j])
}

/// The session named `name`, if any.
pub open spec fn lookup(seq: Seq<NamedSession>, name: Seq<char>) -> Option<NamedSession> {
    if has_name(seq, name) { Some(seq[index_of(seq, name)]) } else { None }
}

/// The number of sessions with an open window.
pub open spec fn count_active(seq: Seq<NamedSession>) -> nat
    decreases seq.len(),
{
    if seq.len() == 0 {
        0
    } else {
        count_active(seq.drop_last()) + (if seq.last().handle is Some { 1nat } else { 0nat })
    }
}

/// The number of sessions a client holds.
pub open spec fn count_acquired(seq: Seq<NamedSession>) -> nat
    decreases seq.len(),
{
    if seq.len() == 0 {
        0
    } else {
        count_acquired(seq.drop_last()) + (if seq.last().acquired { 1nat } else { 0nat })
    }
}

/// The handle id of a session, if it has a window.
pub open spec fn handle_id(s: NamedSession) -> Option<Seq<char>> {
    match s.handle {
        Some(h) => Some(h.id@),
        None => None,
    }
}

/// `Session '<name>' not found`.
pub open spec fn not_found_message(name: Seq<char>) -> Seq<char> {
    "Session '"@ + name + "' not found"@
}

/// Within the unique-name invariant, `index_of` finds the session.
pub proof fn lemma_index_of(seq: Seq<NamedSession>, name: Seq<char>, i: int)
    requires
        unique_names(seq),
        0 <= i < seq.len(),
        key(seq[i]) == name,
    ensures
        has_name(seq, name),
        index_of(seq, name) == i,
{
    assert(key(seq[i]) == name);
}

/// The counts never exceed the number of sessions.
pub proof fn lemma_counts_bounded(seq: Seq<NamedSession>)
    ensures
        count_active(seq) <= seq.len(),
        count_acquired(seq) <= seq.len(),
    decreases seq.len(),
{
    if seq.len() > 0 {
        lemma_counts_bounded(seq.drop_last());
    }
}

/// Duplicates a string list.
pub fn clone_strings(v: &Vec<String>) -> (r: Vec<String>)
    ensures
        r@ == v@,
{
    let mut r: Vec<String> = Vec::new();
    let mut i: usize = 0;
    while i < v.len()
        invariant
            i <= v@.len(),
            r@ == v@.take(i as int),
        decreases v@.len() - i,
    {
        r.push(v[i].clone());
        assert(v@.take(i + 1) =~= v@.take(i as int).push(v@[i as int]));
        i = i + 1;
    }
    assert(v@.take(i as int) =~= v@);
    r
}

/// Duplicates an optional string.
pub fn clone_opt_string(o: &Option<String>) -> (r: Option<String>)
    ensures
        r == *o,
{
    match o {
        Some(s) => Some(s.clone()),
        None => None,
    }
}

impl AuthStatus {
    /// A copy of this status.
    pub fn duplicate(&self) -> (r: Self)
        ensures
            r == *self,
    {
        AuthStatus {
            logged_in: self.logged_in,
            checked_at: clone_opt_string(&self.checked_at),
            username: clone_opt_string(&self.username),
        }
    }
}

/// Two metadata records hold the same values (the history compared by content).
pub open spec fn same_meta(a: NamedSessionMeta, b: NamedSessionMeta) -> bool {
    &&& a.name == b.name
    &&& a.profile == b.profile
    &&& a.auth_status == b.auth_status
    &&& a.last_accessed == b.last_accessed
    &&& a.auto_extend == b.auto_extend
    &&& a.created_at == b.created_at
    &&& a.ttl_hours == b.ttl_hours
    &&& a.expires_at == b.expires_at
    &&& a.last_url == b.last_url
    &&& a.navigation_history@ == b.navigation_history@
    &&& a.auto_restore == b.auto_restore
}

/// `file` holds, in order, each session of `seq` under its name with a copy
/// of its metadata.
pub open spec fn saved_as(file: Seq<(String, NamedSessionMeta)>, seq: Seq<NamedSession>) -> bool {
    &&& file.len() == seq.len()
    &&& forall|j: int| 0 <= j < seq.len() ==> #[trigger] file[j].0 == seq[j].meta.name
        && same_meta(file[j].1, seq[j].meta)
}

/// The session named `n` after loading the entries `file`, in order, over
/// the sessions `seq`: the last entry whose metadata carries that name, as a
/// session without window and not held, or else what `seq` held.
pub open spec fn loaded_lookup(seq: Seq<NamedSession>, file: Seq<(String, NamedSessionMeta)>, n: Seq<char>) -> Option<NamedSession>
    decreases file.len(),
{
    if file.len() == 0 {
        lookup(seq, n)
    } else if file.last().1.name@ == n {
        Some(NamedSession { meta: file.last().1, handle: None, acquired: false })
    } else {
        loaded_lookup(seq, file.drop_last(), n)
    }
}

/// Some session in `seq` uses the profile `p`.
pub open spec fn has_profile(seq: Seq<NamedSession>, p: Seq<char>) -> bool {
    exists|k: int| 0 <= k < seq.len() && (#[trigger] seq[k]).meta.profile@ == p
}

/// The names of `dirs`, in order, that no session of `seq` uses as its
/// profile.
pub open spec fn orphans(seq: Seq<NamedSession>, dirs: Seq<Seq<char>>) -> Seq<Seq<char>>
    decreases dirs.len(),
{
    if dirs.len() == 0 {
        Seq::empty()
    } else {
        let rest = orphans(seq, dirs.drop_last());
        if has_profile(seq, dirs.last()) { rest } else { rest.push(dirs.last()) }
    }
}

/// Two sessions hold the same values.
pub open spec fn same_session(a: NamedSession, b: NamedSession) -> bool {
    same_meta(a.meta, b.meta) && a.handle == b.handle && a.acquired == b.acquired
}

impl NamedSessionMeta {
    /// A copy of this metadata.
    pub fn duplicate(&self) -> (r: Self)
        ensures
            same_meta(r, *self),
    {
        let h = clone_strings(&self.navigation_history);
        NamedSessionMeta {
            name: self.name.clone(),
            profile: self.profile.clone(),
            auth_status: self.auth_status.duplicate(),
            last_accessed: self.last_accessed.clone(),
            auto_extend: self.auto_extend,
            created_at: self.created_at.clone(),
            ttl_hours: self.ttl_hours,
            expires_at: clone_opt_string(&self.expires_at),
            last_url: clone_opt_string(&self.last_url),
            navigation_history: h,
            auto_restore: self.auto_restore,
        }
    }
}

impl SessionHandle {
    /// A copy of this handle.
    pub fn duplicate(&self) -> (r: Self)
        ensures
            r == *self,
    {
        SessionHandle { id: self.id.clone() }
    }
}

/// Duplicates an optional handle.
pub fn clone_opt_handle(o: &Option<SessionHandle>) -> (r: Option<SessionHandle>)
    ensures
        r == *o,
{
    match o {
        Some(h) => Some(h.duplicate()),
        None => None,
    }
}

impl NamedSession {
    /// A copy of this session.
    pub fn duplicate(&self) -> (r: Self)
        ensures
            same_session(r, *self),
    {
        NamedSession {
            meta: self.meta.duplicate(),
            handle: clone_opt_handle(&self.handle),
            acquired: self.acquired,
        }
    }
}

/// Named-session manager: the sessions, the most windows it lets be open at
/// once, and the idle timeout after which unheld windows may be closed.
pub struct SessionManagerV2 {
    sessions: Vec<NamedSession>,
    max_sessions: usize,
    idle_timeout_secs: u64,
}

impl SessionManagerV2 {
    /// The sessions, in the order the manager keeps them.
    pub closed spec fn entries(&self) -> Seq<NamedSession> {
        self.sessions@
    }

    /// The most sessions with an open window.
    pub closed spec fn max(&self) -> nat {
        self.max_sessions as nat
    }

    /// The idle timeout in seconds.
    pub closed spec fn idle_timeout(&self) -> nat {
        self.idle_timeout_secs as nat
    }

    /// Well-formedness: session names are pairwise distinct.
    pub open spec fn wf(&self) -> bool {
        unique_names(self.entries())
    }

    /// An empty manager allowing `max_sessions` open windows, with an idle
    /// timeout of five minutes.
    pub fn new(max_sessions: usize) -> (r: Self)
        ensures
            r.wf(),
            r.entries().len() == 0,
            r.max() == max_sessions,
            r.idle_timeout() == 300,
    {
        SessionManagerV2 { sessions: Vec::new(), max_sessions, idle_timeout_secs: 300 }
    }

    /// The same manager with another idle timeout.
    pub fn with_idle_timeout(self, timeout_secs: u64) -> (r: Self)
        ensures
            r.entries() == self.entries(),
            r.max() == self.max(),
            r.idle_timeout() == timeout_secs,
    {
        SessionManagerV2 { idle_timeout_secs: timeout_secs, ..self }
    }

    /// The position of the session named `name`.
    fn find(&self, name: &str) -> (r: Option<usize>)
        requires
            self.wf(),
        ensures
            match r {
                Some(i) => i < self.entries().len() && has_name(self.entries(), name@)
                    && index_of(self.entries(), name@) == i,
                None => !has_name(self.entries(), name@),
            },
    {
        let mut i: usize = 0;
        while i < self.sessions.len()
            invariant
                i <= self.sessions@.len(),
                unique_names(self.sessions@),
                forall|k: int| 0 <= k < i ==> key(#[trigger] self.sessions@[k]) != name@,
            decreases self.sessions@.len() - i,
        {
            if str_eq(self.sessions[i].meta.name.as_str(), name) {
                proof {
                    lemma_index_of(self.sessions@, name@, i as int);
                }
                return Some(i);
            }
            i = i + 1;
        }
        None
    }

    /// The number of sessions.
    pub fn count(&self) -> (r: usize)
        ensures
            r == self.entries().len(),
    {
        self.sessions.len()
    }

    /// Of the profile directory names `dirs`, in order, those that no
    /// session uses as its profile: the directories left behind by deletions
    /// that failed.
    pub fn orphaned_profiles(&self, dirs: &Vec<String>) -> (r: Vec<String>)
        ensures
            views(r@) == orphans(self.entries(), views(dirs@)),
    {
        let mut out: Vec<String> = Vec::new();
        let mut i: usize = 0;
        while i < dirs.len()
            invariant
                i <= dirs@.len(),
                views(out@) == orphans(self.sessions@, views(dirs@.take(i as int))),
            decreases dirs@.len() - i,
        {
            let mut used = false;
            let mut j: usize = 0;
            while j < self.sessions.len()
                invariant
                    i < dirs@.len(),
                    j <= self.sessions@.len(),
                    used <==> exists|k: int| 0 <= k < j && (#[trigger] self.sessions@[k]).meta.profile@ == dirs@[i as int]@,
                decreases self.sessions@.len() - j,
            {
                if str_eq(self.sessions[j].meta.profile.as_str(), dirs[i].as_str()) {
                    used = true;
                }
                j = j + 1;
            }
            let ghost prev = out@;
            proof {
                let a = views(dirs@.take(i + 1));
                assert(a.drop_last() =~= views(dirs@.take(i as int)));
                assert(a.last() == dirs@[i as int]@);
                assert(used == has_profile(self.sessions@, dirs@[i as int]@));
            }
            if !used {
                out.push(dirs[i].clone());
                proof {
                    assert(views(out@) =~= views(prev).push(dirs@[i as int]@));
                }
            }
            i = i + 1;
        }
        proof {
            assert(dirs@.take(i as int) =~= dirs@);
        }
        out
    }

    /// A copy of the session named `name`, if any.
    pub fn get(&self, name: &str) -> (r: Option<NamedSession>)
        requires
            self.wf(),
        ensures
            match lookup(self.entries(), name@) {
                Some(s) => r matches Some(c) && same_session(c, s),
                None => r is None,
            },
    {
        match self.find(name) {
            Some(i) => Some(self.sessions[i].duplicate()),
            None => None,
        }
    }

    /// The runtime handle of the session named `name`, if it has a window.
    pub fn get_handle(&self, name: &str) -> (r: Option<SessionHandle>)
        requires
            self.wf(),
        ensures
            r == (match lookup(self.entries(), name@) {
                Some(s) => s.handle,
                None => None,
            }),
    {
        match self.find(name) {
            Some(i) => clone_opt_handle(&self.sessions[i].handle),
            None => None,
        }
    }

    /// The last URL of the session named `name`, if any.
    pub fn get_last_url(&self, name: &str) -> (r: Option<String>)
        requires
            self.wf(),
        ensures
            r == (match lookup(self.entries(), name@) {
                Some(s) => s.meta.last_url,
                None => None,
            }),
    {
        match self.find(name) {
            Some(i) => clone_opt_string(&self.sessions[i].meta.last_url),
            None => None,
        }
    }

    /// The navigation history of the session named `name` (empty if none).
    pub fn get_navigation_history(&self, name: &str) -> (r: Vec<String>)
        requires
            self.wf(),
        ensures
            r@ == (match lookup(self.entries(), name@) {
                Some(s) => s.meta.navigation_history@,
                None => Seq::empty(),
            }),
    {
        match self.find(name) {
            Some(i) => clone_strings(&self.sessions[i].meta.navigation_history),
            None => Vec::new(),
        }
    }

    /// Counts over the pool: all sessions, those with a window, those held
    /// by a client, and those not held.
    pub fn stats(&self) -> (r: SessionPoolStats)
        ensures
            r.total == self.entries().len(),
            r.active == count_active(self.entries()),
            r.acquired == count_acquired(self.entries()),
            r.idle == r.total - r.acquired,
            r.max_sessions == self.max(),
    {
        let mut active: usize = 0;
        let mut acquired: usize = 0;
        let mut i: usize = 0;
        while i < self.sessions.len()
            invariant
                i <= self.sessions@.len(),
                active == count_active(self.sessions@.take(i as int)),
                acquired == count_acquired(self.sessions@.take(i as int)),
            decreases self.sessions@.len() - i,
        {
            proof {
                assert(self.sessions@.take(i + 1).drop_last() =~= self.sessions@.take(i as int));
                lemma_counts_bounded(self.sessions@.take(i as int));
            }
            if self.sessions[i].handle.is_some() {
                active = active + 1;
            }
            if self.sessions[i].acquired {
                acquired = acquired + 1;
            }
            i = i + 1;
        }
        proof {
            assert(self.sessions@.take(i as int) =~= self.sessions@);
            lemma_counts_bounded(self.sessions@);
        }
        SessionPoolStats {
            total: self.sessions.len(),
            active,
            acquired,
            idle: self.sessions.len() - acquired,
            max_sessions: self.max_sessions,
        }
    }
}

/// The profile a new session gets: the requested one, else the session name.
pub open spec fn requested_profile(req: AcquireRequest) -> String {
    match req.profile {
        Some(p) => p,
        None => req.name,
    }
}

/// The window options for reopening the existing session `ex`.
pub open spec fn reopen_options(ex: NamedSession, req: AcquireRequest) -> SessionOptions {
    SessionOptions {
        profile: ex.meta.profile,
        headless: req.headless,
        user_agent: None,
        window_title: Some(req.name),
    }
}

/// The window options for a new session.
pub open spec fn create_options(req: AcquireRequest) -> SessionOptions {
    SessionOptions {
        profile: requested_profile(req),
        headless: req.headless,
        user_agent: None,
        window_title: Some(req.name),
    }
}

/// The authentication status of a session never checked.
pub open spec fn unchecked_auth() -> AuthStatus {
    AuthStatus { logged_in: false, checked_at: None, username: None }
}

/// `e` is the expiry `ttl_hours` after the stamp `from` (counting from some
/// instant when `from` does not parse).
pub open spec fn expiry_after(e: Seq<char>, from: Seq<char>, ttl_hours: u64) -> bool {
    exists|now: u64| e == add_hours_text(add_hours_base(from, now), ttl_hours)
}

/// `s` is the session an acquire request creates, with window `h`.
pub open spec fn is_fresh_session(s: NamedSession, req: AcquireRequest, h: SessionHandle) -> bool {
    &&& s.meta.name == req.name
    &&& s.meta.profile == requested_profile(req)
    &&& s.meta.auth_status == unchecked_auth()
    &&& is_iso8601_stamp(s.meta.last_accessed@)
    &&& s.meta.created_at@ == s.meta.last_accessed@
    &&& s.meta.auto_extend == req.auto_extend
    &&& s.meta.ttl_hours == req.ttl_hours
    &&& (if req.ttl_hours > 0 {
        s.meta.expires_at matches Some(e) && expiry_after(e@, s.meta.created_at@, req.ttl_hours)
    } else {
        s.meta.expires_at is None
    })
    &&& s.meta.last_url is None
    &&& s.meta.navigation_history@.len() == 0
    &&& s.meta.auto_restore
    &&& s.handle == Some(h)
    &&& s.acquired
}

/// `n` is `o` with only its last access updated to a fresh stamp.
pub open spec fn touched(o: NamedSessionMeta, n: NamedSessionMeta) -> bool {
    &&& n.name == o.name
    &&& n.profile == o.profile
    &&& n.auth_status == o.auth_status
    &&& is_iso8601_stamp(n.last_accessed@)
    &&& n.auto_extend == o.auto_extend
    &&& n.created_at == o.created_at
    &&& n.ttl_hours == o.ttl_hours
    &&& n.expires_at == o.expires_at
    &&& n.last_url == o.last_url
    &&& n.navigation_history == o.navigation_history
    &&& n.auto_restore == o.auto_restore
}

/// `final_seq` is `old_seq` with position `i` replaced and all else kept.
pub open spec fn replaced_at(old_seq: Seq<NamedSession>, final_seq: Seq<NamedSession>, i: int) -> bool {
    &&& final_seq.len() == old_seq.len()
    &&& 0 <= i < old_seq.len()
    &&& forall|j: int| 0 <= j < old_seq.len() && j != i ==> final_seq[j] == old_seq[j]
}

/// `Session '<name>' not found and create_if_missing is false`.
pub open spec fn not_found_no_create_message(name: Seq<char>) -> Seq<char> {
    "Session '"@ + name + "' not found and create_if_missing is false"@
}

/// `Maximum active sessions (<max>) reached`.
pub open spec fn max_sessions_message(max: nat) -> Seq<char> {
    "Maximum active sessions ("@ + crate::text::decimal(max) + ") reached"@
}

/// `Session '<name>' is currently acquired`.
pub open spec fn acquired_message(name: Seq<char>) -> Seq<char> {
    "Session '"@ + name + "' is currently acquired"@
}

/// `"<prefix><name><suffix>"`.
fn quoted_message(prefix: &str, name: &str, suffix: &str) -> (r: String)
    ensures
        r@ == prefix@ + name@ + suffix@,
{
    let mut r = owned(prefix);
    push_str(&mut r, name);
    push_str(&mut r, suffix);
    r
}

/// `Session '<name>' not found`.
fn not_found(name: &str) -> (r: String)
    ensures
        r@ == not_found_message(name@),
{
    quoted_message("Session '", name, "' not found")
}

impl SessionManagerV2 {
    /// The number of sessions with an open window.
    fn active_count(&self) -> (r: usize)
        ensures
            r == count_active(self.entries()),
    {
        let mut active: usize = 0;
        let mut i: usize = 0;
        while i < self.sessions.len()
            invariant
                i <= self.sessions@.len(),
                active == count_active(self.sessions@.take(i as int)),
            decreases self.sessions@.len() - i,
        {
            proof {
                assert(self.sessions@.take(i + 1).drop_last() =~= self.sessions@.take(i as int));
                lemma_counts_bounded(self.sessions@.take(i as int));
            }
            if self.sessions[i].handle.is_some() {
                active = active + 1;
            }
            i = i + 1;
        }
        assert(self.sessions@.take(i as int) =~= self.sessions@);
        active
    }

    /// Acquires the session `request.name`.
    ///
    /// An existing session is reused when `reuse` is set: it is marked held,
    /// its last access is stamped, and when it has no window
    /// `create_session_fn` opens one with the session's profile.  Otherwise,
    /// if `create_if_missing` is set and fewer than `max` sessions have a
    /// window, `create_session_fn` opens a window and a fresh session takes
    /// the name (replacing an unreused one).  On any error the sessions are
    /// unchanged.
    pub fn acquire<F>(&mut self, request: AcquireRequest, create_session_fn: F) -> (res: Result<AcquireResponse, String>)
        where
            F: FnOnce(SessionOptions) -> Result<(String, SessionHandle), String>,
        requires
            old(self).wf(),
            forall|o: SessionOptions| create_session_fn.requires((o,)),
        ensures
            final(self).wf(),
            final(self).max() == old(self).max(),
            final(self).idle_timeout() == old(self).idle_timeout(),
            res is Err ==> final(self).entries() == old(self).entries(),
            ({
                let old_seq = old(self).entries();
                let new_seq = final(self).entries();
                let name = request.name@;
                match lookup(old_seq, name) {
                    Some(ex) if request.reuse => {
                        let i = index_of(old_seq, name);
                        &&& (ex.handle is Some ==> res is Ok)
                        &&& (res matches Err(e) ==> ex.handle is None
                            && create_session_fn.ensures((reopen_options(ex, request),), Err(e)))
                        &&& (res matches Ok(r) ==> {
                            &&& r.session == request.name
                            &&& !r.is_new
                            &&& r.profile == ex.meta.profile
                            &&& r.auth_status == Some(ex.meta.auth_status)
                            &&& r.restored_url is None
                            &&& replaced_at(old_seq, new_seq, i)
                            &&& touched(ex.meta, new_seq[i].meta)
                            &&& new_seq[i].acquired
                            &&& (ex.handle is Some ==> new_seq[i].handle == ex.handle)
                            &&& (ex.handle is None ==> exists|id: String, h: SessionHandle|
                                create_session_fn.ensures((reopen_options(ex, request),), Ok((id, h)))
                                && new_seq[i].handle == Some(h))
                        })
                    },
                    _ => {
                        &&& (!request.create_if_missing ==> (res matches Err(e)
                            && e@ == not_found_no_create_message(name)))
                        &&& (request.create_if_missing && count_active(old_seq) >= old(self).max()
                            ==> (res matches Err(e) && e@ == max_sessions_message(old(self).max())))
                        &&& ((request.create_if_missing && count_active(old_seq) < old(self).max())
                            ==> (res matches Err(e) ==> create_session_fn.ensures((create_options(request),), Err(e))))
                        &&& (res matches Ok(r) ==> {
                            &&& r.session == request.name
                            &&& r.is_new
                            &&& r.profile == requested_profile(request)
                            &&& r.auth_status is None
                            &&& r.restored_url is None
                            &&& request.create_if_missing
                            &&& count_active(old_seq) < old(self).max()
                            &&& exists|id: String, h: SessionHandle|
                                create_session_fn.ensures((create_options(request),), Ok((id, h)))
                                && is_fresh_session(lookup(new_seq, name)->0, request, h)
                            &&& has_name(new_seq, name)
                            &&& (has_name(old_seq, name) ==> replaced_at(old_seq, new_seq, index_of(old_seq, name))
                                && index_of(new_seq, name) == index_of(old_seq, name))
                            &&& (!has_name(old_seq, name) ==> new_seq == old_seq.push(new_seq.last()))
                        })
                    },
                }
            }),
    {
        let idx = self.find(request.name.as_str());
        if let Some(i) = idx {
            if request.reuse {
                let ghost ex = self.sessions@[i as int];
                if self.sessions[i].handle.is_none() {
                    let options = SessionOptions {
                        profile: self.sessions[i].meta.profile.clone(),
                        headless: request.headless,
                        user_agent: None,
                        window_title: Some(request.name.clone()),
                    };
                    assert(options == reopen_options(ex, request));
                    let created = create_session_fn(options);
                    match created {
                        Err(e) => {
                            return Err(e);
                        },
                        Ok((_id, handle)) => {
                            self.sessions[i].handle = Some(handle);
                        },
                    }
                }
                let now = chrono_now_iso8601();
                self.sessions[i].meta.last_accessed = now;
                self.sessions[i].acquired = true;
                let response = AcquireResponse {
                    session: request.name,
                    is_new: false,
                    profile: self.sessions[i].meta.profile.clone(),
                    auth_status: Some(self.sessions[i].meta.auth_status.duplicate()),
                    restored_url: None,
                };
                proof {
                    assert forall|a: int, b: int| 0 <= a < self.sessions@.len() && 0 <= b < self.sessions@.len() && a != b
                        implies key(#[trigger] self.sessions@[a]) != key(#[trigger] self.sessions@[b]) by {
                        assert(key(self.sessions@[a]) == key(old(self).sessions@[a]));
                        assert(key(self.sessions@[b]) == key(old(self).sessions@[b]));
                    }
                }
                return Ok(response);
            }
        }
        if !request.create_if_missing {
            return Err(quoted_message("Session '", request.name.as_str(), "' not found and create_if_missing is false"));
        }
        let active = self.active_count();
        if active >= self.max_sessions {
            let mut msg = owned("Maximum active sessions (");
            crate::text::push_decimal(&mut msg, self.max_sessions as u64);
            push_str(&mut msg, ") reached");
            return Err(msg);
        }
        let profile_name = match &request.profile {
            Some(p) => p.clone(),
            None => request.name.clone(),
        };
        let options = SessionOptions {
            profile: profile_name.clone(),
            headless: request.headless,
            user_agent: None,
            window_title: Some(request.name.clone()),
        };
        assert(options == create_options(request));
        let created = create_session_fn(options);
        let handle = match created {
            Err(e) => {
                return Err(e);
            },
            Ok((_id, h)) => h,
        };
        let ghost h0 = handle;
        let now = chrono_now_iso8601();
        let expires_at = if request.ttl_hours > 0 {
            Some(chrono_add_hours(now.as_str(), request.ttl_hours))
        } else {
            None
        };
        let meta = NamedSessionMeta {
            name: request.name.clone(),
            profile: profile_name.clone(),
            auth_status: AuthStatus::default(),
            last_accessed: now.clone(),
            auto_extend: request.auto_extend,
            created_at: now,
            ttl_hours: request.ttl_hours,
            expires_at,
            last_url: None,
            navigation_history: Vec::new(),
            auto_restore: true,
        };
        let session = NamedSession { meta, handle: Some(handle), acquired: true };
        assert(is_fresh_session(session, request, h0));
        match idx {
            Some(i) => {
                self.sessions[i] = session;
                proof {
                    assert forall|a: int, b: int| 0 <= a < self.sessions@.len() && 0 <= b < self.sessions@.len() && a != b
                        implies key(#[trigger] self.sessions@[a]) != key(#[trigger] self.sessions@[b]) by {
                        assert(key(self.sessions@[a]) == key(old(self).sessions@[a]));
                        assert(key(self.sessions@[b]) == key(old(self).sessions@[b]));
                    }
                    lemma_index_of(self.sessions@, request.name@, i as int);
                }
            },
            None => {
                self.sessions.push(session);
                proof {
                    let n = self.sessions@.len() - 1;
                    assert forall|a: int, b: int| 0 <= a < self.sessions@.len() && 0 <= b < self.sessions@.len() && a != b
                        implies key(#[trigger] self.sessions@[a]) != key(#[trigger] self.sessions@[b]) by {
                        if a < n && b < n {
                            assert(self.sessions@[a] == old(self).sessions@[a]);
                            assert(self.sessions@[b] == old(self).sessions@[b]);
                        } else if a == n {
                            assert(self.sessions@[b] == old(self).sessions@[b]);
                            if key(self.sessions@[b]) == request.name@ {
                                assert(has_name(old(self).sessions@, request.name@));
                            }
                        } else {
                            assert(self.sessions@[a] == old(self).sessions@[a]);
                            if key(self.sessions@[a]) == request.name@ {
                                assert(has_name(old(self).sessions@, request.name@));
                            }
                        }
                    }
                    lemma_index_of(self.sessions@, request.name@, n);
                    assert(self.sessions@ =~= old(self).sessions@.push(self.sessions@.last()));
                }
            },
        }
        Ok(AcquireResponse {
            session: request.name,
            is_new: true,
            profile: profile_name,
            auth_status: None,
            restored_url: None,
        })
    }
}

/// Replacing one session by one of the same name keeps names distinct.
pub proof fn lemma_unique_after_replace(old_seq: Seq<NamedSession>, new_seq: Seq<NamedSession>, i: int)
    requires
        unique_names(old_seq),
        replaced_at(old_seq, new_seq, i),
        key(new_seq[i]) == key(old_seq[i]),
    ensures
        unique_names(new_seq),
        forall|j: int| 0 <= j < new_seq.len() ==> key(#[trigger] new_seq[j]) == key(old_seq[j]),
{
    assert forall|j: int| 0 <= j < new_seq.len() implies key(#[trigger] new_seq[j]) == key(old_seq[j]) by {
        if j != i {
            assert(new_seq[j] == old_seq[j]);
        }
    }
    assert forall|a: int, b: int| 0 <= a < new_seq.len() && 0 <= b < new_seq.len() && a != b
        implies key(#[trigger] new_seq[a]) != key(#[trigger] new_seq[b]) by {
        assert(key(new_seq[a]) == key(old_seq[a]));
        assert(key(new_seq[b]) == key(old_seq[b]));
    }
}

/// Removing one session keeps names distinct, and the others keep their
/// relative order.
pub proof fn lemma_unique_after_remove(seq: Seq<NamedSession>, i: int)
    requires
        unique_names(seq),
        0 <= i < seq.len(),
    ensures
        unique_names(seq.remove(i)),
        !has_name(seq.remove(i), key(seq[i])),
        forall|n: Seq<char>| n != key(seq[i]) ==> (has_name(seq.remove(i), n) == has_name(seq, n)),
        forall|n: Seq<char>| n != key(seq[i]) && has_name(seq, n) ==> lookup(seq.remove(i), n) == lookup(seq, n),
{
    let r = seq.remove(i);
    assert forall|j: int| 0 <= j < r.len() implies #[trigger] r[j] == (if j < i { seq[j] } else { seq[j + 1] }) by {}
    assert forall|a: int, b: int| 0 <= a < r.len() && 0 <= b < r.len() && a != b
        implies key(#[trigger] r[a]) != key(#[trigger] r[b]) by {
        let a2 = if a < i { a } else { a + 1 };
        let b2 = if b < i { b } else { b + 1 };
        assert(r[a] == seq[a2]);
        assert(r[b] == seq[b2]);
    }
    if has_name(r, key(seq[i])) {
        let j = choose|j: int| 0 <= j < r.len() && key(#[trigger] r[j]) == key(seq[i]);
        let j2 = if j < i { j } else { j + 1 };
        assert(r[j] == seq[j2]);
    }
    assert forall|n: Seq<char>| n != key(seq[i]) implies (has_name(r, n) == has_name(seq, n)) by {
        if has_name(seq, n) {
            let k = choose|k: int| 0 <= k < seq.len() && key(#[trigger] seq[k]) == n;
            let k2 = if k < i { k } else { k - 1 };
            assert(r[k2] == seq[k]);
        }
        if has_name(r, n) {
            let k = choose|k: int| 0 <= k < r.len() && key(#[trigger] r[k]) == n;
            let k2 = if k < i { k } else { k + 1 };
            assert(r[k] == seq[k2]);
        }
    }
    assert forall|n: Seq<char>| n != key(seq[i]) && has_name(seq, n) implies lookup(r, n) == lookup(seq, n) by {
        let k = index_of(seq, n);
        let k2 = if k < i { k } else { k - 1 };
        assert(r[k2] == seq[k]);
        lemma_index_of(r, n, k2);
    }
}

/// `n` is `o` released: not held, last access stamped, and, when `o`
/// extends automatically and has a TTL, its expiry moved to the TTL after a
/// fresh stamp.
pub open spec fn released(o: NamedSession, n: NamedSession) -> bool {
    &&& !n.acquired
    &&& n.handle == o.handle
    &&& n.meta.name == o.meta.name
    &&& n.meta.profile == o.meta.profile
    &&& n.meta.auth_status == o.meta.auth_status
    &&& is_iso8601_stamp(n.meta.last_accessed@)
    &&& n.meta.auto_extend == o.meta.auto_extend
    &&& n.meta.created_at == o.meta.created_at
    &&& n.meta.ttl_hours == o.meta.ttl_hours
    &&& (if o.meta.auto_extend && o.meta.ttl_hours > 0 {
        n.meta.expires_at matches Some(e) && exists|stamp: Seq<char>|
            is_iso8601_stamp(stamp) && expiry_after(e@, stamp, o.meta.ttl_hours)
    } else {
        n.meta.expires_at == o.meta.expires_at
    })
    &&& n.meta.last_url == o.meta.last_url
    &&& n.meta.navigation_history == o.meta.navigation_history
    &&& n.meta.auto_restore == o.meta.auto_restore
}

/// `n` is `o` with its window closed (handle cleared, not held, stamped).
pub open spec fn closed_window(o: NamedSession, n: NamedSession) -> bool {
    n.handle is None && !n.acquired && touched(o.meta, n.meta)
}

/// `n` is `o` suspended: window closed, hold unchanged, stamped.
pub open spec fn suspended(o: NamedSession, n: NamedSession) -> bool {
    n.handle is None && n.acquired == o.acquired && touched(o.meta, n.meta)
}

/// The navigation history after visiting `url`: `url` is appended unless it
/// is already the last entry, and the oldest entry is dropped when more than
/// `MAX_HISTORY` remain.
pub open spec fn history_after(h: Seq<Seq<char>>, url: Seq<char>) -> Seq<Seq<char>> {
    if h.len() > 0 && h.last() == url {
        h
    } else if h.len() + 1 > MAX_HISTORY {
        h.push(url).drop_first()
    } else {
        h.push(url)
    }
}

impl SessionManagerV2 {
    /// Records a session created elsewhere: held, with window `id`, the
    /// default TTL and an expiry one TTL after now.  A session of the same
    /// name is replaced.
    pub fn register(&mut self, name: &str, id: &str, profile: &str, headless: bool)
        requires
            old(self).wf(),
        ensures
            final(self).wf(),
            final(self).max() == old(self).max(),
            final(self).idle_timeout() == old(self).idle_timeout(),
            has_name(final(self).entries(), name@),
            ({
                let s = lookup(final(self).entries(), name@)->0;
                &&& s.meta.name@ == name@
                &&& s.meta.profile@ == profile@
                &&& s.meta.auth_status == unchecked_auth()
                &&& is_iso8601_stamp(s.meta.last_accessed@)
                &&& s.meta.created_at@ == s.meta.last_accessed@
                &&& s.meta.auto_extend
                &&& s.meta.ttl_hours == DEFAULT_TTL_HOURS
                &&& s.meta.expires_at matches Some(e) && expiry_after(e@, s.meta.created_at@, DEFAULT_TTL_HOURS)
                &&& s.meta.last_url is None
                &&& s.meta.navigation_history@.len() == 0
                &&& s.meta.auto_restore
                &&& s.handle matches Some(h) && h.id@ == id@
                &&& s.acquired
            }),
            forall|n: Seq<char>| n != name@ ==> lookup(final(self).entries(), n) == lookup(old(self).entries(), n),
            has_name(old(self).entries(), name@) ==> final(self).entries().len() == old(self).entries().len(),
            !has_name(old(self).entries(), name@) ==> final(self).entries().len() == old(self).entries().len() + 1,
    {
        let now = chrono_now_iso8601();
        let ttl_hours = default_ttl_hours();
        let expires_at = Some(chrono_add_hours(now.as_str(), ttl_hours));
        let meta = NamedSessionMeta {
            name: owned(name),
            profile: owned(profile),
            auth_status: AuthStatus::default(),
            last_accessed: now.clone(),
            auto_extend: true,
            created_at: now,
            ttl_hours,
            expires_at,
            last_url: None,
            navigation_history: Vec::new(),
            auto_restore: true,
        };
        let session = NamedSession { meta, handle: Some(SessionHandle { id: owned(id) }), acquired: true };
        self.put(session);
    }

    /// Stores `session` under its name, replacing a session of that name.
    fn put(&mut self, session: NamedSession)
        requires
            old(self).wf(),
        ensures
            final(self).wf(),
            final(self).max() == old(self).max(),
            final(self).idle_timeout() == old(self).idle_timeout(),
            has_name(final(self).entries(), key(session)),
            lookup(final(self).entries(), key(session)) == Some(session),
            forall|n: Seq<char>| n != key(session) ==> lookup(final(self).entries(), n) == lookup(old(self).entries(), n),
            forall|n: Seq<char>| n != key(session) ==> has_name(final(self).entries(), n) == has_name(old(self).entries(), n),
            has_name(old(self).entries(), key(session)) ==> final(self).entries().len() == old(self).entries().len()
                && replaced_at(old(self).entries(), final(self).entries(), index_of(old(self).entries(), key(session)))
                && index_of(final(self).entries(), key(session)) == index_of(old(self).entries(), key(session)),
            !has_name(old(self).entries(), key(session)) ==> final(self).entries() == old(self).entries().push(session),
    {
        let ghost name = key(session);
        match self.find(session.meta.name.as_str()) {
            Some(i) => {
                self.sessions[i] = session;
                proof {
                    lemma_unique_after_replace(old(self).sessions@, self.sessions@, i as int);
                    lemma_index_of(self.sessions@, name, i as int);
                    assert forall|n: Seq<char>| n != name implies
                        lookup(self.sessions@, n) == lookup(old(self).sessions@, n)
                        && has_name(self.sessions@, n) == has_name(old(self).sessions@, n) by {
                        if has_name(old(self).sessions@, n) {
                            let k = index_of(old(self).sessions@, n);
                            assert(self.sessions@[k] == old(self).sessions@[k]);
                            lemma_index_of(self.sessions@, n, k);
                        }
                        if has_name(self.sessions@, n) {
                            let k = index_of(self.sessions@, n);
                            assert(self.sessions@[k] == old(self).sessions@[k]);
                        }
                    }
                }
            },
            None => {
                self.sessions.push(session);
                proof {
                    let last = self.sessions@.len() - 1;
                    assert forall|a: int, b: int| 0 <= a < self.sessions@.len() && 0 <= b < self.sessions@.len() && a != b
                        implies key(#[trigger] self.sessions@[a]) != key(#[trigger] self.sessions@[b]) by {
                        if a < last && b < last {
                            assert(self.sessions@[a] == old(self).sessions@[a]);
                            assert(self.sessions@[b] == old(self).sessions@[b]);
                        } else if a == last {
                            assert(self.sessions@[b] == old(self).sessions@[b]);
                        } else {
                            assert(self.sessions@[a] == old(self).sessions@[a]);
                        }
                    }
                    lemma_index_of(self.sessions@, name, last);
                    assert forall|n: Seq<char>| n != name implies
                        lookup(self.sessions@, n) == lookup(old(self).sessions@, n)
                        && has_name(self.sessions@, n) == has_name(old(self).sessions@, n) by {
                        if has_name(old(self).sessions@, n) {
                            let k = index_of(old(self).sessions@, n);
                            assert(self.sessions@[k] == old(self).sessions@[k]);
                            lemma_index_of(self.sessions@, n, k);
                        }
                        if has_name(self.sessions@, n) {
                            let k = index_of(self.sessions@, n);
                            assert(k != last);
                            assert(self.sessions@[k] == old(self).sessions@[k]);
                        }
                    }
                }
            },
        }
    }

    /// Releases the session named `name`: it is no longer held, its last
    /// access is stamped, and an auto-extending session with a TTL gets a new
    /// expiry one TTL after now.
    pub fn release(&mut self, name: &str) -> (res: Result<(), String>)
        requires
            old(self).wf(),
        ensures
            final(self).wf(),
            final(self).max() == old(self).max(),
            final(self).idle_timeout() == old(self).idle_timeout(),
            match lookup(old(self).entries(), name@) {
                None => res matches Err(e) && e@ == not_found_message(name@)
                    && final(self).entries() == old(self).entries(),
                Some(o) => res is Ok && replaced_at(old(self).entries(), final(self).entries(), index_of(old(self).entries(), name@))
                    && released(o, final(self).entries()[index_of(old(self).entries(), name@)]),
            },
    {
        let i = match self.find(name) {
            Some(i) => i,
            None => {
                return Err(not_found(name));
            },
        };
        self.sessions[i].acquired = false;
        self.sessions[i].meta.last_accessed = chrono_now_iso8601();
        if self.sessions[i].meta.auto_extend && self.sessions[i].meta.ttl_hours > 0 {
            let now = chrono_now_iso8601();
            let ttl = self.sessions[i].meta.ttl_hours;
            self.sessions[i].meta.expires_at = Some(chrono_add_hours(now.as_str(), ttl));
        }
        proof {
            lemma_unique_after_replace(old(self).sessions@, self.sessions@, i as int);
        }
        Ok(())
    }

    /// Closes the window of the session named `name` (its metadata stays):
    /// the handle is cleared, the session is no longer held, and the id of
    /// the closed window is returned.
    pub fn close_session(&mut self, name: &str) -> (res: Result<Option<String>, String>)
        requires
            old(self).wf(),
        ensures
            final(self).wf(),
            final(self).max() == old(self).max(),
            final(self).idle_timeout() == old(self).idle_timeout(),
            match lookup(old(self).entries(), name@) {
                None => res matches Err(e) && e@ == not_found_message(name@)
                    && final(self).entries() == old(self).entries(),
                Some(o) => res matches Ok(id) && opt_view(&id) == handle_id(o)
                    && replaced_at(old(self).entries(), final(self).entries(), index_of(old(self).entries(), name@))
                    && closed_window(o, final(self).entries()[index_of(old(self).entries(), name@)]),
            },
    {
        let i = match self.find(name) {
            Some(i) => i,
            None => {
                return Err(not_found(name));
            },
        };
        let session_id = match &self.sessions[i].handle {
            Some(h) => Some(h.id.clone()),
            None => None,
        };
        self.sessions[i].handle = None;
        self.sessions[i].acquired = false;
        self.sessions[i].meta.last_accessed = chrono_now_iso8601();
        proof {
            lemma_unique_after_replace(old(self).sessions@, self.sessions@, i as int);
        }
        Ok(session_id)
    }

    /// Clears the window of the session whose window has id `session_id`
    /// (the first such session), as when its window was closed by the user.
    pub fn clear_handle_by_id(&mut self, session_id: &str)
        requires
            old(self).wf(),
        ensures
            final(self).wf(),
            final(self).max() == old(self).max(),
            final(self).idle_timeout() == old(self).idle_timeout(),
            (forall|j: int| 0 <= j < old(self).entries().len() ==> handle_id(#[trigger] old(self).entries()[j]) != Some(session_id@))
                ==> final(self).entries() == old(self).entries(),
            forall|i: int| 0 <= i < old(self).entries().len() && handle_id(#[trigger] old(self).entries()[i]) == Some(session_id@)
                && (forall|j: int| 0 <= j < i ==> handle_id(#[trigger] old(self).entries()[j]) != Some(session_id@))
                ==> replaced_at(old(self).entries(), final(self).entries(), i)
                && closed_window(old(self).entries()[i], final(self).entries()[i]),
    {
        let mut i: usize = 0;
        while i < self.sessions.len()
            invariant
                self.sessions@ == old(self).sessions@,
                self.max_sessions == old(self).max_sessions,
                self.idle_timeout_secs == old(self).idle_timeout_secs,
                unique_names(self.sessions@),
                i <= self.sessions@.len(),
                forall|j: int| 0 <= j < i ==> handle_id(#[trigger] self.sessions@[j]) != Some(session_id@),
            decreases self.sessions@.len() - i,
        {
            let matches = match &self.sessions[i].handle {
                Some(h) => str_eq(h.id.as_str(), session_id),
                None => false,
            };
            if matches {
                self.sessions[i].handle = None;
                self.sessions[i].acquired = false;
                self.sessions[i].meta.last_accessed = chrono_now_iso8601();
                proof {
                    lemma_unique_after_replace(old(self).sessions@, self.sessions@, i as int);
                    assert forall|k: int| 0 <= k < old(self).entries().len() && handle_id(#[trigger] old(self).entries()[k]) == Some(session_id@)
                        && (forall|j: int| 0 <= j < k ==> handle_id(#[trigger] old(self).entries()[j]) != Some(session_id@))
                        implies k == i by {
                        if k < i {
                        } else if k > i {
                            assert(handle_id(old(self).entries()[i as int]) == Some(session_id@));
                        }
                    }
                }
                return;
            }
            i = i + 1;
        }
    }

    /// Suspends the session named `name`: its window is closed (the handle
    /// cleared) while its metadata stays; a held session is not suspended.
    /// Returns the id of the closed window.
    pub fn suspend_session(&mut self, name: &str) -> (res: Result<Option<String>, String>)
        requires
            old(self).wf(),
        ensures
            final(self).wf(),
            final(self).max() == old(self).max(),
            final(self).idle_timeout() == old(self).idle_timeout(),
            match lookup(old(self).entries(), name@) {
                None => res matches Err(e) && e@ == not_found_message(name@)
                    && final(self).entries() == old(self).entries(),
                Some(o) => if o.acquired {
                    res matches Err(e) && e@ == acquired_message(name@)
                        && final(self).entries() == old(self).entries()
                } else {
                    res matches Ok(id) && opt_view(&id) == handle_id(o)
                        && replaced_at(old(self).entries(), final(self).entries(), index_of(old(self).entries(), name@))
                        && suspended(o, final(self).entries()[index_of(old(self).entries(), name@)])
                },
            },
    {
        let i = match self.find(name) {
            Some(i) => i,
            None => {
                return Err(not_found(name));
            },
        };
        if self.sessions[i].acquired {
            return Err(quoted_message("Session '", name, "' is currently acquired"));
        }
        let handle_id = match &self.sessions[i].handle {
            Some(h) => Some(h.id.clone()),
            None => None,
        };
        self.sessions[i].handle = None;
        self.sessions[i].meta.last_accessed = chrono_now_iso8601();
        proof {
            lemma_unique_after_replace(old(self).sessions@, self.sessions@, i as int);
        }
        Ok(handle_id)
    }

    /// Sets the authentication status of the session named `name` and stamps
    /// its last access.
    pub fn update_auth_status(&mut self, name: &str, auth_status: AuthStatus) -> (res: Result<(), String>)
        requires
            old(self).wf(),
        ensures
            final(self).wf(),
            final(self).max() == old(self).max(),
            final(self).idle_timeout() == old(self).idle_timeout(),
            match lookup(old(self).entries(), name@) {
                None => res matches Err(e) && e@ == not_found_message(name@)
                    && final(self).entries() == old(self).entries(),
                Some(o) => res is Ok && ({
                    let i = index_of(old(self).entries(), name@);
                    let n = final(self).entries()[i];
                    &&& replaced_at(old(self).entries(), final(self).entries(), i)
                    &&& n.meta.auth_status == auth_status
                    &&& touched(NamedSessionMeta { auth_status, ..o.meta }, n.meta)
                    &&& n.handle == o.handle
                    &&& n.acquired == o.acquired
                }),
            },
    {
        let i = match self.find(name) {
            Some(i) => i,
            None => {
                return Err(not_found(name));
            },
        };
        self.sessions[i].meta.auth_status = auth_status;
        self.sessions[i].meta.last_accessed = chrono_now_iso8601();
        proof {
            lemma_unique_after_replace(old(self).sessions@, self.sessions@, i as int);
        }
        Ok(())
    }

    /// Records that the session named `name` now shows `url`: the URL becomes
    /// its last URL and enters its history (see `history_after`), and its
    /// last access is stamped.  Empty URLs and `about:blank` are ignored.
    pub fn update_last_url(&mut self, name: &str, url: &str) -> (res: Result<(), String>)
        requires
            old(self).wf(),
        ensures
            final(self).wf(),
            final(self).max() == old(self).max(),
            final(self).idle_timeout() == old(self).idle_timeout(),
            match lookup(old(self).entries(), name@) {
                None => res matches Err(e) && e@ == not_found_message(name@)
                    && final(self).entries() == old(self).entries(),
                Some(o) => res is Ok && (if url@.len() == 0 || url@ == "about:blank"@ {
                    final(self).entries() == old(self).entries()
                } else {
                    let i = index_of(old(self).entries(), name@);
                    let n = final(self).entries()[i];
                    &&& replaced_at(old(self).entries(), final(self).entries(), i)
                    &&& n.handle == o.handle
                    &&& n.acquired == o.acquired
                    &&& n.meta.last_url matches Some(u) && u@ == url@
                    &&& views(n.meta.navigation_history@) == history_after(views(o.meta.navigation_history@), url@)
                    &&& touched(
                        NamedSessionMeta { last_url: n.meta.last_url, navigation_history: n.meta.navigation_history, ..o.meta },
                        n.meta,
                    )
                }),
            },
    {
        let i = match self.find(name) {
            Some(i) => i,
            None => {
                return Err(not_found(name));
            },
        };
        if url.is_empty() || str_eq(url, "about:blank") {
            return Ok(());
        }
        let ghost old_hist = self.sessions@[i as int].meta.navigation_history@;
        let hist_len = self.sessions[i].meta.navigation_history.len();
        let same_as_last = hist_len > 0 && str_eq(
            self.sessions[i].meta.navigation_history[hist_len - 1].as_str(),
            url,
        );
        if !same_as_last {
            self.sessions[i].meta.navigation_history.push(owned(url));
            if self.sessions[i].meta.navigation_history.len() > MAX_HISTORY {
                self.sessions[i].meta.navigation_history.remove(0);
            }
        }
        proof {
            let nh = self.sessions@[i as int].meta.navigation_history@;
            if same_as_last {
                assert(views(old_hist).last() == url@);
            } else {
                if old_hist.len() + 1 > MAX_HISTORY {
                    assert(views(nh) =~= views(old_hist).push(url@).drop_first());
                } else {
                    assert(views(nh) =~= views(old_hist).push(url@));
                }
            }
        }
        self.sessions[i].meta.last_url = Some(owned(url));
        self.sessions[i].meta.last_accessed = chrono_now_iso8601();
        proof {
            lemma_unique_after_replace(old(self).sessions@, self.sessions@, i as int);
        }
        Ok(())
    }

    /// Removes the session named `name` and returns the id of its window, so
    /// that the caller can close it (and delete the session's profile).
    pub fn destroy(&mut self, name: &str) -> (res: Result<Option<String>, String>)
        requires
            old(self).wf(),
        ensures
            final(self).wf(),
            final(self).max() == old(self).max(),
            final(self).idle_timeout() == old(self).idle_timeout(),
            match lookup(old(self).entries(), name@) {
                None => res matches Err(e) && e@ == not_found_message(name@)
                    && final(self).entries() == old(self).entries(),
                Some(o) => res matches Ok(id) && opt_view(&id) == handle_id(o)
                    && final(self).entries() == old(self).entries().remove(index_of(old(self).entries(), name@)),
            },
            !has_name(final(self).entries(), name@),
    {
        let i = match self.find(name) {
            Some(i) => i,
            None => {
                return Err(not_found(name));
            },
        };
        let session = self.sessions.remove(i);
        proof {
            lemma_unique_after_remove(old(self).sessions@, i as int);
        }
        let id = match session.handle {
            Some(h) => Some(h.id),
            None => None,
        };
        Ok(id)
    }
}

/// The sessions of `seq` for which `f` is `want`, in order.
pub open spec fn select(seq: Seq<NamedSession>, f: spec_fn(NamedSession) -> bool, want: bool) -> Seq<NamedSession>
    decreases seq.len(),
{
    if seq.len() == 0 {
        Seq::empty()
    } else {
        (if f(seq[0]) == want { seq![seq[0]] } else { Seq::empty() }) + select(seq.drop_first(), f, want)
    }
}

/// The window ids of the sessions of `seq` that have a window, in order.
pub open spec fn window_ids(seq: Seq<NamedSession>) -> Seq<Seq<char>>
    decreases seq.len(),
{
    if seq.len() == 0 {
        Seq::empty()
    } else {
        (match seq[0].handle {
            Some(h) => seq![h.id@],
            None => Seq::empty(),
        }) + window_ids(seq.drop_first())
    }
}

/// The names of the sessions of `seq`, in order.
pub open spec fn names(seq: Seq<NamedSession>) -> Seq<Seq<char>> {
    seq.map_values(|s: NamedSession| s.meta.name@)
}

/// Names in a selection are names of the whole, and selecting keeps names
/// distinct.
pub proof fn lemma_select(seq: Seq<NamedSession>, f: spec_fn(NamedSession) -> bool, want: bool)
    requires
        unique_names(seq),
    ensures
        unique_names(select(seq, f, want)),
        forall|n: Seq<char>| has_name(select(seq, f, want), n) <==> (has_name(seq, n) && f(lookup(seq, n)->0) == want),
        forall|n: Seq<char>| has_name(select(seq, f, want), n) ==> lookup(select(seq, f, want), n) == lookup(seq, n),
    decreases seq.len(),
{
    let sel = select(seq, f, want);
    if seq.len() == 0 {
        assert(sel =~= Seq::<NamedSession>::empty());
    } else {
        let rest = seq.drop_first();
        assert(unique_names(rest)) by {
            assert forall|a: int, b: int| 0 <= a < rest.len() && 0 <= b < rest.len() && a != b
                implies key(#[trigger] rest[a]) != key(#[trigger] rest[b]) by {
                assert(rest[a] == seq[a + 1]);
                assert(rest[b] == seq[b + 1]);
            }
        }
        lemma_select(rest, f, want);
        let sr = select(rest, f, want);
        let head: Seq<NamedSession> = if f(seq[0]) == want { seq![seq[0]] } else { Seq::empty() };
        assert(sel == head + sr);
        assert(!has_name(rest, key(seq[0]))) by {
            if has_name(rest, key(seq[0])) {
                let k = choose|k: int| 0 <= k < rest.len() && key(#[trigger] rest[k]) == key(seq[0]);
                assert(rest[k] == seq[k + 1]);
            }
        }
        assert forall|n: Seq<char>| #![trigger has_name(rest, n)] has_name(seq, n) <==> (n == key(seq[0]) || has_name(rest, n)) by {
            if has_name(seq, n) && n != key(seq[0]) {
                let k = choose|k: int| 0 <= k < seq.len() && key(#[trigger] seq[k]) == n;
                assert(rest[k - 1] == seq[k]);
            }
            if has_name(rest, n) {
                let k = choose|k: int| 0 <= k < rest.len() && key(#[trigger] rest[k]) == n;
                assert(rest[k] == seq[k + 1]);
            }
            if n == key(seq[0]) {
                assert(key(seq[0]) == n);
            }
        }
        assert forall|n: Seq<char>| has_name(rest, n) implies lookup(rest, n) == lookup(seq, n) by {
            let k = index_of(rest, n);
            assert(rest[k] == seq[k + 1]);
            lemma_index_of(seq, n, k + 1);
        }
        lemma_index_of(seq, key(seq[0]), 0);
        assert forall|a: int, b: int| 0 <= a < sel.len() && 0 <= b < sel.len() && a != b
            implies key(#[trigger] sel[a]) != key(#[trigger] sel[b]) by {
            if head.len() == 1 {
                if a == 0 && b > 0 {
                    assert(sel[b] == sr[b - 1]);
                    assert(has_name(sr, key(sel[b])));
                } else if b == 0 && a > 0 {
                    assert(sel[a] == sr[a - 1]);
                    assert(has_name(sr, key(sel[a])));
                } else if a > 0 && b > 0 {
                    assert(sel[a] == sr[a - 1]);
                    assert(sel[b] == sr[b - 1]);
                }
            } else {
                assert(sel[a] == sr[a]);
                assert(sel[b] == sr[b]);
            }
        }
        assert forall|n: Seq<char>| has_name(sel, n) <==> (has_name(seq, n) && f(lookup(seq, n)->0) == want) by {
            if has_name(sel, n) {
                let k = choose|k: int| 0 <= k < sel.len() && key(#[trigger] sel[k]) == n;
                if head.len() == 1 && k == 0 {
                } else {
                    let k2 = k - head.len();
                    assert(sel[k] == sr[k2]);
                    assert(has_name(sr, n));
                }
            }
            if has_name(seq, n) && f(lookup(seq, n)->0) == want {
                if n == key(seq[0]) {
                    assert(sel[0] == seq[0]);
                } else {
                    assert(has_name(rest, n));
                    assert(has_name(sr, n));
                    let k = choose|k: int| 0 <= k < sr.len() && key(#[trigger] sr[k]) == n;
                    assert(sel[k + head.len()] == sr[k]);
                }
            }
        }
        assert forall|n: Seq<char>| has_name(sel, n) implies lookup(sel, n) == lookup(seq, n) by {
            let k = index_of(sel, n);
            if head.len() == 1 && k == 0 {
            } else {
                let k2 = k - head.len();
                assert(sel[k] == sr[k2]);
                lemma_index_of(sr, n, k2);
            }
        }
    }
}

/// `select` over a suffix, one step.
proof fn lemma_select_step(seq: Seq<NamedSession>, f: spec_fn(NamedSession) -> bool, want: bool, j: int)
    requires
        0 <= j < seq.len(),
    ensures
        select(seq.skip(j), f, want) == (if f(seq[j]) == want { seq![seq[j]] } else { Seq::empty() }) + select(seq.skip(j + 1), f, want),
{
    assert(seq.skip(j).drop_first() =~= seq.skip(j + 1));
    assert(seq.skip(j)[0] == seq[j]);
}

/// `window_ids` of a concatenation.
proof fn lemma_window_ids_append(a: Seq<NamedSession>, b: Seq<NamedSession>)
    ensures
        window_ids(a + b) == window_ids(a) + window_ids(b),
    decreases a.len(),
{
    if a.len() == 0 {
        assert(a + b =~= b);
    } else {
        lemma_window_ids_append(a.drop_first(), b);
        assert((a + b).drop_first() =~= a.drop_first() + b);
        assert((a + b)[0] == a[0]);
    }
}

/// Whether a session is idle at `now`: its last access lies `idle_seconds`
/// or more in the past, compared to the nanosecond (a last access after
/// `now` is never idle); `stale` tells what an unparsable stamp counts as.
pub open spec fn idle_since(s: NamedSession, now: (i64, u32), idle_seconds: u64, stale: bool) -> bool {
    match rfc3339_instant(s.meta.last_accessed@) {
        Some(t) => elapsed_at_least(now, t, idle_seconds),
        None => stale,
    }
}

/// The unheld sessions.
pub open spec fn inactive_filter() -> spec_fn(NamedSession) -> bool {
    |s: NamedSession| !s.acquired
}

/// The unheld sessions whose expiry lies in the past at `now`.
pub open spec fn expired_filter(now: (i64, u32)) -> spec_fn(NamedSession) -> bool {
    |s: NamedSession| expired_at(opt_view(&s.meta.expires_at), now) && !s.acquired
}

/// The unheld sessions idle at `now` (an unparsable stamp counts as idle).
pub open spec fn idle_filter(now: (i64, u32), max_idle_seconds: u64) -> spec_fn(NamedSession) -> bool {
    |s: NamedSession| !s.acquired && idle_since(s, now, max_idle_seconds, true)
}

/// The unheld sessions with a window idle at `now` (an unparsable stamp
/// does not count as idle).
pub open spec fn suspend_filter(now: (i64, u32), idle_seconds: u64) -> spec_fn(NamedSession) -> bool {
    |s: NamedSession| !s.acquired && s.handle is Some && idle_since(s, now, idle_seconds, false)
}

/// The (name, window id) pairs of the sessions of `seq` chosen by `f`.
pub open spec fn suspended_pairs(seq: Seq<NamedSession>, f: spec_fn(NamedSession) -> bool) -> Seq<(Seq<char>, Seq<char>)>
    decreases seq.len(),
{
    if seq.len() == 0 {
        Seq::empty()
    } else {
        suspended_pairs(seq.drop_last(), f) + (if f(seq.last()) {
            seq![(seq.last().meta.name@, handle_id(seq.last())->0)]
        } else {
            Seq::empty()
        })
    }
}

/// Whether the last access of a session lies more than `max_age_secs`
/// before the instant `now` (whole seconds, nanoseconds since the epoch),
/// measured as std's `SystemTime` measures it.
pub open spec fn older_than(s: NamedSession, now: Option<(u64, u32)>, max_age_secs: nat) -> bool {
    match (rfc3339_instant(s.meta.last_accessed@), now) {
        (Some(t), Some(n)) => t.0 >= 0 && n.0 >= t.0 && ((n.0 - t.0) > max_age_secs
            || ((n.0 - t.0) == max_age_secs && n.1 > 0)),
        _ => false,
    }
}

/// The unheld sessions older than `max_age_secs` at `now`.
pub open spec fn old_filter(now: Option<(u64, u32)>, max_age_secs: nat) -> spec_fn(NamedSession) -> bool {
    |s: NamedSession| older_than(s, now, max_age_secs) && !s.acquired
}

/// No session's last access parses to an instant before the epoch.
pub open spec fn stamps_after_epoch(seq: Seq<NamedSession>) -> bool {
    forall|j: int| 0 <= j < seq.len() ==> (rfc3339_instant(#[trigger] seq[j].meta.last_accessed@) matches Some(t) ==> t.0 >= 0)
}

/// The list item of a session at `now`.
pub open spec fn list_item_of(s: NamedSession, it: SessionListItem, now: (i64, u32)) -> bool {
    &&& it.name == s.meta.name
    &&& it.profile == s.meta.profile
    &&& it.auth_status == s.meta.auth_status
    &&& it.last_accessed == s.meta.last_accessed
    &&& it.active == (s.handle is Some)
    &&& it.acquired == s.acquired
    &&& it.ttl_hours == s.meta.ttl_hours
    &&& it.expires_at == s.meta.expires_at
    &&& it.expired == expired_at(opt_view(&s.meta.expires_at), now)
}

/// Each item reports the session at its position, at `now`.
pub open spec fn listed_at(seq: Seq<NamedSession>, items: Seq<SessionListItem>, now: (i64, u32)) -> bool {
    items.len() == seq.len() && forall|j: int| 0 <= j < seq.len() ==> list_item_of(seq[j], #[trigger] items[j], now)
}

/// `Source session '<name>' not found`.
pub open spec fn source_not_found_message(name: Seq<char>) -> Seq<char> {
    "Source session '"@ + name + "' not found"@
}

/// `Session '<name>' already exists`.
pub open spec fn exists_message(name: Seq<char>) -> Seq<char> {
    "Session '"@ + name + "' already exists"@
}

/// `n` is the copy of `src` named `new_name`: same profile contents under
/// the new name, same authentication, TTL and history, no window, not held,
/// created now and expiring one TTL later (never, without a TTL).
pub open spec fn cloned_from(src: NamedSessionMeta, n: NamedSession, new_name: Seq<char>) -> bool {
    &&& n.meta.name@ == new_name
    &&& n.meta.profile@ == new_name
    &&& n.meta.auth_status == src.auth_status
    &&& is_iso8601_stamp(n.meta.last_accessed@)
    &&& n.meta.created_at@ == n.meta.last_accessed@
    &&& n.meta.auto_extend == src.auto_extend
    &&& n.meta.ttl_hours == src.ttl_hours
    &&& (if src.ttl_hours > 0 {
        n.meta.expires_at matches Some(e) && expiry_after(e@, n.meta.created_at@, src.ttl_hours)
    } else {
        n.meta.expires_at is None
    })
    &&& n.meta.last_url == src.last_url
    &&& n.meta.navigation_history@ == src.navigation_history@
    &&& n.meta.auto_restore == src.auto_restore
    &&& n.handle is None
    &&& !n.acquired
}

/// The authentication status found by an auth check: logged in when the
/// logged-in selector matched and the login-required selector (if checked)
/// did not; a failed login-required check counts as not matched.
pub open spec fn checked_logged_in(logged_in_found: bool, login_required: Option<Result<bool, String>>) -> bool {
    logged_in_found && !(match login_required {
        Some(Ok(b)) => b,
        _ => false,
    })
}

/// The authentication status an auth check yields, stamped now.
pub fn auth_status_from_checks(logged_in_found: bool, login_required: Option<Result<bool, String>>) -> (r: AuthStatus)
    ensures
        r.logged_in == checked_logged_in(logged_in_found, login_required),
        r.checked_at matches Some(t) && is_iso8601_stamp(t@),
        r.username is None,
{
    let needs_login = match login_required {
        Some(Ok(b)) => b,
        _ => false,
    };
    AuthStatus {
        logged_in: logged_in_found && !needs_login,
        checked_at: Some(chrono_now_iso8601()),
        username: None,
    }
}

impl SessionManagerV2 {
    /// Records an auth check of the session named `name` from what the
    /// selector checks on its auth page gave: an error of the logged-in
    /// check is returned as it is and changes nothing; otherwise the status
    /// (see `auth_status_from_checks`) is stored as by `update_auth_status`
    /// and returned.
    pub fn check_auth(
        &mut self,
        name: &str,
        logged_in_check: Result<bool, String>,
        login_required_check: Option<Result<bool, String>>,
    ) -> (res: Result<AuthStatus, String>)
        requires
            old(self).wf(),
        ensures
            final(self).wf(),
            final(self).max() == old(self).max(),
            final(self).idle_timeout() == old(self).idle_timeout(),
            res is Err ==> final(self).entries() == old(self).entries(),
            logged_in_check matches Err(e) ==> res == Err::<AuthStatus, String>(e),
            logged_in_check matches Ok(found) ==> match lookup(old(self).entries(), name@) {
                None => res matches Err(e) && e@ == not_found_message(name@),
                Some(o) => res matches Ok(st) && {
                    let i = index_of(old(self).entries(), name@);
                    let n = final(self).entries()[i];
                    &&& st.logged_in == checked_logged_in(found, login_required_check)
                    &&& st.checked_at matches Some(t) && is_iso8601_stamp(t@)
                    &&& st.username is None
                    &&& replaced_at(old(self).entries(), final(self).entries(), i)
                    &&& n.meta.auth_status == st
                    &&& touched(NamedSessionMeta { auth_status: st, ..o.meta }, n.meta)
                    &&& n.handle == o.handle
                    &&& n.acquired == o.acquired
                },
            },
    {
        let found = match logged_in_check {
            Ok(b) => b,
            Err(e) => {
                return Err(e);
            },
        };
        let status = auth_status_from_checks(found, login_required_check);
        let stored = AuthStatus {
            logged_in: status.logged_in,
            checked_at: match &status.checked_at {
                Some(t) => Some(t.clone()),
                None => None,
            },
            username: None,
        };
        match self.update_auth_status(name, stored) {
            Ok(()) => Ok(status),
            Err(e) => Err(e),
        }
    }

    /// Removes the sessions chosen by `mask` (which agrees with `f`) and
    /// returns them, in order.
    fn remove_marked(&mut self, mask: &Vec<bool>, Ghost(f): Ghost<spec_fn(NamedSession) -> bool>) -> (removed: Vec<NamedSession>)
        requires
            old(self).wf(),
            mask@.len() == old(self).entries().len(),
            forall|j: int| 0 <= j < mask@.len() ==> mask@[j] == f(#[trigger] old(self).entries()[j]),
        ensures
            final(self).wf(),
            final(self).max() == old(self).max(),
            final(self).idle_timeout() == old(self).idle_timeout(),
            final(self).entries() == select(old(self).entries(), f, false),
            removed@ == select(old(self).entries(), f, true),
    {
        let ghost o = self.sessions@;
        let mut removed: Vec<NamedSession> = Vec::new();
        let mut j: usize = self.sessions.len();
        assert(o.skip(j as int) =~= Seq::<NamedSession>::empty());
        assert(o.take(j as int) =~= o);
        assert(o.take(j as int) + select(o.skip(j as int), f, false) =~= o);
        while j > 0
            invariant
                o == old(self).sessions@,
                self.max_sessions == old(self).max_sessions,
                self.idle_timeout_secs == old(self).idle_timeout_secs,
                j <= o.len(),
                mask@.len() == o.len(),
                forall|k: int| 0 <= k < mask@.len() ==> mask@[k] == f(#[trigger] o[k]),
                self.sessions@ == o.take(j as int) + select(o.skip(j as int), f, false),
                removed@ == select(o.skip(j as int), f, true),
            decreases j,
        {
            j = j - 1;
            proof {
                lemma_select_step(o, f, false, j as int);
                lemma_select_step(o, f, true, j as int);
                assert(o.take(j + 1) =~= o.take(j as int).push(o[j as int]));
            }
            let ghost before = self.sessions@;
            if mask[j] {
                let s = self.sessions.remove(j);
                removed.insert(0, s);
                proof {
                    assert(before[j as int] == o[j as int]);
                    assert(self.sessions@ =~= o.take(j as int) + select(o.skip(j as int), f, false));
                    assert(removed@ =~= select(o.skip(j as int), f, true));
                }
            } else {
                proof {
                    assert(self.sessions@ =~= o.take(j as int) + select(o.skip(j as int), f, false));
                }
            }
        }
        proof {
            assert(o.skip(0) =~= o);
            assert(o.take(0) + select(o, f, false) =~= select(o, f, false));
            lemma_select(o, f, false);
        }
        removed
    }

    /// The window ids of `v`, in order.
    fn ids_of(v: &Vec<NamedSession>) -> (r: Vec<String>)
        ensures
            views(r@) == window_ids(v@),
    {
        let mut r: Vec<String> = Vec::new();
        let mut i: usize = 0;
        while i < v.len()
            invariant
                i <= v@.len(),
                views(r@) == window_ids(v@.take(i as int)),
            decreases v@.len() - i,
        {
            proof {
                lemma_window_ids_append(v@.take(i as int), seq![v@[i as int]]);
                assert(v@.take(i + 1) =~= v@.take(i as int) + seq![v@[i as int]]);
                assert(seq![v@[i as int]].drop_first() =~= Seq::<NamedSession>::empty());
                assert(window_ids(Seq::<NamedSession>::empty()) =~= Seq::<Seq<char>>::empty());
            }
            match &v[i].handle {
                Some(h) => {
                    r.push(h.id.clone());
                    proof {
                        assert(window_ids(seq![v@[i as int]]) =~= seq![h.id@]);
                    }
                },
                None => {
                    proof {
                        assert(window_ids(seq![v@[i as int]]) =~= Seq::<Seq<char>>::empty());
                    }
                },
            }
            assert(views(r@) =~= window_ids(v@.take(i + 1)));
            i = i + 1;
        }
        assert(v@.take(i as int) =~= v@);
        r
    }

    /// The names of `v`, in order.
    fn names_of(v: &Vec<NamedSession>) -> (r: Vec<String>)
        ensures
            views(r@) == names(v@),
    {
        let mut r: Vec<String> = Vec::new();
        let mut i: usize = 0;
        while i < v.len()
            invariant
                i <= v@.len(),
                r@.len() == i,
                views(r@) == names(v@.take(i as int)),
            decreases v@.len() - i,
        {
            let ghost prev = r@;
            r.push(v[i].meta.name.clone());
            proof {
                assert forall|k: int| 0 <= k < i + 1 implies #[trigger] views(r@)[k] == names(v@.take(i + 1))[k] by {
                    if k < i {
                        assert(r@[k] == prev[k]);
                        assert(views(prev)[k] == names(v@.take(i as int))[k]);
                    }
                }
                assert(views(r@) =~= names(v@.take(i + 1)));
            }
            i = i + 1;
        }
        assert(v@.take(i as int) =~= v@);
        r
    }

    /// Removes every unheld session and returns the removed sessions.
    pub fn take_inactive(&mut self) -> (removed: Vec<NamedSession>)
        requires
            old(self).wf(),
        ensures
            final(self).wf(),
            final(self).max() == old(self).max(),
            final(self).idle_timeout() == old(self).idle_timeout(),
            final(self).entries() == select(old(self).entries(), inactive_filter(), false),
            removed@ == select(old(self).entries(), inactive_filter(), true),
    {
        let mut mask: Vec<bool> = Vec::new();
        let mut i: usize = 0;
        while i < self.sessions.len()
            invariant
                i <= self.sessions@.len(),
                mask@.len() == i,
                forall|j: int| 0 <= j < i ==> mask@[j] == (inactive_filter())(#[trigger] self.sessions@[j]),
            decreases self.sessions@.len() - i,
        {
            mask.push(!self.sessions[i].acquired);
            i = i + 1;
        }
        self.remove_marked(&mask, Ghost(inactive_filter()))
    }

    /// Removes every unheld session; returns the ids of their windows so that
    /// the caller can close them.
    pub fn cleanup_inactive(&mut self) -> (res: Result<Vec<String>, String>)
        requires
            old(self).wf(),
        ensures
            final(self).wf(),
            final(self).max() == old(self).max(),
            final(self).idle_timeout() == old(self).idle_timeout(),
            final(self).entries() == select(old(self).entries(), inactive_filter(), false),
            res matches Ok(ids) && views(ids@) == window_ids(select(old(self).entries(), inactive_filter(), true)),
    {
        let removed = self.take_inactive();
        Ok(Self::ids_of(&removed))
    }

    /// Removes the unheld sessions whose expiry lies in the past at `now`
    /// and returns them.
    pub fn take_expired_at(&mut self, now: (i64, u32)) -> (removed: Vec<NamedSession>)
        requires
            old(self).wf(),
        ensures
            final(self).wf(),
            final(self).max() == old(self).max(),
            final(self).idle_timeout() == old(self).idle_timeout(),
            final(self).entries() == select(old(self).entries(), expired_filter(now), false),
            removed@ == select(old(self).entries(), expired_filter(now), true),
    {
        let mut mask: Vec<bool> = Vec::new();
        let mut i: usize = 0;
        while i < self.sessions.len()
            invariant
                i <= self.sessions@.len(),
                mask@.len() == i,
                forall|j: int| 0 <= j < i ==> mask@[j] == (expired_filter(now))(#[trigger] self.sessions@[j]),
            decreases self.sessions@.len() - i,
        {
            let e = is_expired_at(&self.sessions[i].meta.expires_at, now);
            mask.push(e && !self.sessions[i].acquired);
            i = i + 1;
        }
        self.remove_marked(&mask, Ghost(expired_filter(now)))
    }

    /// Removes the unheld sessions whose expiry has passed; returns the ids
    /// of their windows.
    pub fn cleanup_expired(&mut self) -> (res: Result<Vec<String>, String>)
        requires
            old(self).wf(),
        ensures
            final(self).wf(),
            final(self).max() == old(self).max(),
            final(self).idle_timeout() == old(self).idle_timeout(),
            exists|now: (i64, u32)| final(self).entries() == select(old(self).entries(), expired_filter(now), false)
                && (res matches Ok(ids) && views(ids@) == window_ids(select(old(self).entries(), expired_filter(now), true))),
    {
        let now = utc_now();
        let removed = self.take_expired_at(now);
        Ok(Self::ids_of(&removed))
    }

    /// Removes the unheld sessions idle for `max_idle_seconds` or more at
    /// `now` (or whose last access does not parse) and returns them.
    pub fn take_idle_at(&mut self, max_idle_seconds: u64, now: (i64, u32)) -> (removed: Vec<NamedSession>)
        requires
            old(self).wf(),
            now.1 < 1_000_000_000,
            -crate::clock::MAX_INSTANT_SECS <= now.0 <= crate::clock::MAX_INSTANT_SECS,
        ensures
            final(self).wf(),
            final(self).max() == old(self).max(),
            final(self).idle_timeout() == old(self).idle_timeout(),
            final(self).entries() == select(old(self).entries(), idle_filter(now, max_idle_seconds), false),
            removed@ == select(old(self).entries(), idle_filter(now, max_idle_seconds), true),
    {
        let mut mask: Vec<bool> = Vec::new();
        let mut i: usize = 0;
        while i < self.sessions.len()
            invariant
                i <= self.sessions@.len(),
                mask@.len() == i,
                now.1 < 1_000_000_000,
                -crate::clock::MAX_INSTANT_SECS <= now.0 <= crate::clock::MAX_INSTANT_SECS,
                forall|j: int| 0 <= j < i ==> mask@[j] == (idle_filter(now, max_idle_seconds))(#[trigger] self.sessions@[j]),
            decreases self.sessions@.len() - i,
        {
            let idle = match parse_rfc3339(self.sessions[i].meta.last_accessed.as_str()) {
                Some(t) => has_elapsed(now, t, max_idle_seconds),
                None => true,
            };
            mask.push(!self.sessions[i].acquired && idle);
            i = i + 1;
        }
        self.remove_marked(&mask, Ghost(idle_filter(now, max_idle_seconds)))
    }

    /// Removes the unheld sessions idle for `max_idle_seconds` or more and
    /// returns them (the caller closes their windows and deletes their
    /// profiles).
    pub fn take_idle(&mut self, max_idle_seconds: u64) -> (removed: Vec<NamedSession>)
        requires
            old(self).wf(),
        ensures
            final(self).wf(),
            final(self).max() == old(self).max(),
            final(self).idle_timeout() == old(self).idle_timeout(),
            exists|now: (i64, u32)| final(self).entries() == select(old(self).entries(), idle_filter(now, max_idle_seconds), false)
                && removed@ == select(old(self).entries(), idle_filter(now, max_idle_seconds), true),
    {
        let now = utc_now();
        self.take_idle_at(max_idle_seconds, now)
    }

    /// Removes the unheld sessions idle for `max_idle_seconds` or more;
    /// returns their names.
    pub fn cleanup_idle(&mut self, max_idle_seconds: u64) -> (r: Vec<String>)
        requires
            old(self).wf(),
        ensures
            final(self).wf(),
            final(self).max() == old(self).max(),
            final(self).idle_timeout() == old(self).idle_timeout(),
            exists|now: (i64, u32)| final(self).entries() == select(old(self).entries(), idle_filter(now, max_idle_seconds), false)
                && views(r@) == names(select(old(self).entries(), idle_filter(now, max_idle_seconds), true)),
    {
        let now = utc_now();
        let removed = self.take_idle_at(max_idle_seconds, now);
        Self::names_of(&removed)
    }

    /// Suspends the unheld sessions with a window idle for `idle_seconds` or
    /// more at `now`; returns their (name, window id) pairs in order.
    pub fn auto_suspend_idle_at(&mut self, idle_seconds: u64, now: (i64, u32)) -> (r: Vec<(String, String)>)
        requires
            old(self).wf(),
            now.1 < 1_000_000_000,
            -crate::clock::MAX_INSTANT_SECS <= now.0 <= crate::clock::MAX_INSTANT_SECS,
        ensures
            final(self).wf(),
            final(self).max() == old(self).max(),
            final(self).idle_timeout() == old(self).idle_timeout(),
            final(self).entries().len() == old(self).entries().len(),
            forall|j: int| 0 <= j < old(self).entries().len() ==> if (suspend_filter(now, idle_seconds))(#[trigger] old(self).entries()[j]) {
                suspended(old(self).entries()[j], final(self).entries()[j])
            } else {
                final(self).entries()[j] == old(self).entries()[j]
            },
            r@.map_values(|p: (String, String)| (p.0@, p.1@)) == suspended_pairs(old(self).entries(), suspend_filter(now, idle_seconds)),
    {
        let ghost o = self.sessions@;
        let ghost f = suspend_filter(now, idle_seconds);
        let mut r: Vec<(String, String)> = Vec::new();
        let mut i: usize = 0;
        while i < self.sessions.len()
            invariant
                o == old(self).sessions@,
                f == suspend_filter(now, idle_seconds),
                self.max_sessions == old(self).max_sessions,
                self.idle_timeout_secs == old(self).idle_timeout_secs,
                now.1 < 1_000_000_000,
                -crate::clock::MAX_INSTANT_SECS <= now.0 <= crate::clock::MAX_INSTANT_SECS,
                i <= o.len(),
                self.sessions@.len() == o.len(),
                unique_names(self.sessions@),
                forall|j: int| 0 <= j < o.len() ==> key(#[trigger] self.sessions@[j]) == key(o[j]),
                forall|j: int| 0 <= j < i ==> if f(#[trigger] o[j]) {
                    suspended(o[j], self.sessions@[j])
                } else {
                    self.sessions@[j] == o[j]
                },
                forall|j: int| i <= j < o.len() ==> #[trigger] self.sessions@[j] == o[j],
                r@.map_values(|p: (String, String)| (p.0@, p.1@)) == suspended_pairs(o.take(i as int), f),
            decreases o.len() - i,
        {
            let ghost before = self.sessions@;
            let candidate = !self.sessions[i].acquired && self.sessions[i].handle.is_some() && match parse_rfc3339(self.sessions[i].meta.last_accessed.as_str()) {
                Some(t) => has_elapsed(now, t, idle_seconds),
                None => false,
            };
            assert(candidate == f(o[i as int]));
            proof {
                assert(o.take(i + 1).drop_last() =~= o.take(i as int));
            }
            if candidate {
                let name = self.sessions[i].meta.name.clone();
                let id = match &self.sessions[i].handle {
                    Some(h) => h.id.clone(),
                    None => owned(""),
                };
                self.sessions[i].handle = None;
                self.sessions[i].meta.last_accessed = chrono_now_iso8601();
                r.push((name, id));
                proof {
                    lemma_unique_after_replace(before, self.sessions@, i as int);
                    assert(r@.map_values(|p: (String, String)| (p.0@, p.1@)) =~= suspended_pairs(o.take(i + 1), f));
                }
            } else {
                proof {
                    assert(r@.map_values(|p: (String, String)| (p.0@, p.1@)) =~= suspended_pairs(o.take(i + 1), f));
                }
            }
            i = i + 1;
        }
        assert(o.take(i as int) =~= o);
        r
    }

    /// Suspends the unheld sessions with a window idle for `idle_seconds` or
    /// more; returns their (name, window id) pairs.
    pub fn auto_suspend_idle(&mut self, idle_seconds: u64) -> (r: Vec<(String, String)>)
        requires
            old(self).wf(),
        ensures
            final(self).wf(),
            final(self).max() == old(self).max(),
            final(self).idle_timeout() == old(self).idle_timeout(),
            final(self).entries().len() == old(self).entries().len(),
            exists|now: (i64, u32)| {
                &&& forall|j: int| 0 <= j < old(self).entries().len() ==> if (suspend_filter(now, idle_seconds))(#[trigger] old(self).entries()[j]) {
                    suspended(old(self).entries()[j], final(self).entries()[j])
                } else {
                    final(self).entries()[j] == old(self).entries()[j]
                }
                &&& r@.map_values(|p: (String, String)| (p.0@, p.1@)) == suspended_pairs(old(self).entries(), suspend_filter(now, idle_seconds))
            },
    {
        let now = utc_now();
        self.auto_suspend_idle_at(idle_seconds, now)
    }

    /// Removes the unheld sessions last accessed more than `max_age_hours`
    /// hours before `now` and returns them.
    pub fn take_old_at(&mut self, max_age_hours: u64, now: Option<(u64, u32)>) -> (removed: Vec<NamedSession>)
        requires
            old(self).wf(),
            max_age_hours * 3600 <= u64::MAX,
            stamps_after_epoch(old(self).entries()),
        ensures
            final(self).wf(),
            final(self).max() == old(self).max(),
            final(self).idle_timeout() == old(self).idle_timeout(),
            final(self).entries() == select(old(self).entries(), old_filter(now, (max_age_hours * 3600) as nat), false),
            removed@ == select(old(self).entries(), old_filter(now, (max_age_hours * 3600) as nat), true),
    {
        let max_age: u64 = max_age_hours * 3600;
        let ghost f = old_filter(now, max_age as nat);
        let mut mask: Vec<bool> = Vec::new();
        let mut i: usize = 0;
        while i < self.sessions.len()
            invariant
                i <= self.sessions@.len(),
                mask@.len() == i,
                f == old_filter(now, max_age as nat),
                stamps_after_epoch(self.sessions@),
                forall|j: int| 0 <= j < i ==> mask@[j] == f(#[trigger] self.sessions@[j]),
            decreases self.sessions@.len() - i,
        {
            let old_enough = match (parse_rfc3339(self.sessions[i].meta.last_accessed.as_str()), now) {
                (Some(t), Some(n)) => {
                    assert(t.0 >= 0);
                    let ts = t.0 as u64;
                    n.0 >= ts && ((n.0 - ts) > max_age || ((n.0 - ts) == max_age && n.1 > 0))
                },
                _ => false,
            };
            mask.push(old_enough && !self.sessions[i].acquired);
            i = i + 1;
        }
        self.remove_marked(&mask, Ghost(f))
    }

    /// Removes the unheld sessions last accessed more than `max_age_hours`
    /// hours ago; returns the ids of their windows.
    pub fn cleanup_old(&mut self, max_age_hours: u64) -> (res: Result<Vec<String>, String>)
        requires
            old(self).wf(),
            max_age_hours * 3600 <= u64::MAX,
            stamps_after_epoch(old(self).entries()),
        ensures
            final(self).wf(),
            final(self).max() == old(self).max(),
            final(self).idle_timeout() == old(self).idle_timeout(),
            exists|now: Option<(u64, u32)>| #![trigger old_filter(now, (max_age_hours * 3600) as nat)] final(self).entries() == select(old(self).entries(), old_filter(now, (max_age_hours * 3600) as nat), false)
                && (res matches Ok(ids) && views(ids@) == window_ids(select(old(self).entries(), old_filter(now, (max_age_hours * 3600) as nat), true))),
    {
        let now = crate::clock::system_time_since_epoch();
        let removed = self.take_old_at(max_age_hours, now);
        Ok(Self::ids_of(&removed))
    }

    /// Whether no session's last access parses to an instant before the
    /// epoch (which the age-based cleanup cannot measure).
    pub fn all_stamps_after_epoch(&self) -> (r: bool)
        ensures
            r == stamps_after_epoch(self.entries()),
    {
        let mut i: usize = 0;
        while i < self.sessions.len()
            invariant
                i <= self.sessions@.len(),
                forall|j: int| 0 <= j < i ==> (rfc3339_instant(#[trigger] self.sessions@[j].meta.last_accessed@) matches Some(t) ==> t.0 >= 0),
            decreases self.sessions@.len() - i,
        {
            match parse_rfc3339(self.sessions[i].meta.last_accessed.as_str()) {
                Some(t) => {
                    if t.0 < 0 {
                        return false;
                    }
                },
                None => {},
            }
            i = i + 1;
        }
        true
    }

    /// The age-based cleanup where it can be measured: `None` (and nothing
    /// removed) when an hour count overflows or some last access lies before
    /// the epoch, else what `cleanup_old` returns.
    pub fn cleanup_old_checked(&mut self, max_age_hours: u64) -> (res: Option<Vec<String>>)
        requires
            old(self).wf(),
        ensures
            final(self).wf(),
            final(self).max() == old(self).max(),
            final(self).idle_timeout() == old(self).idle_timeout(),
            res is None <==> (max_age_hours * 3600 > u64::MAX || !stamps_after_epoch(old(self).entries())),
            res is None ==> final(self).entries() == old(self).entries(),
            res matches Some(ids) ==> exists|now: Option<(u64, u32)>| #![trigger old_filter(now, (max_age_hours * 3600) as nat)]
                final(self).entries() == select(old(self).entries(), old_filter(now, (max_age_hours * 3600) as nat), false)
                && views(ids@) == window_ids(select(old(self).entries(), old_filter(now, (max_age_hours * 3600) as nat), true)),
    {
        if max_age_hours > u64::MAX / 3600 || !self.all_stamps_after_epoch() {
            return None;
        }
        match self.cleanup_old(max_age_hours) {
            Ok(ids) => Some(ids),
            Err(_) => None,
        }
    }

    /// The sessions as the list API reports them at `now`.
    pub fn list_at(&self, now: (i64, u32)) -> (res: Result<ListSessionsResponse, String>)
        ensures
            res matches Ok(r) && r.total == r.sessions@.len() && r.sessions@.len() == self.entries().len()
                && forall|j: int| 0 <= j < self.entries().len() ==> list_item_of(self.entries()[j], #[trigger] r.sessions@[j], now),
    {
        let mut items: Vec<SessionListItem> = Vec::new();
        let mut i: usize = 0;
        while i < self.sessions.len()
            invariant
                i <= self.sessions@.len(),
                items@.len() == i,
                forall|j: int| 0 <= j < i ==> list_item_of(self.sessions@[j], #[trigger] items@[j], now),
            decreases self.sessions@.len() - i,
        {
            let s = &self.sessions[i];
            let item = SessionListItem {
                name: s.meta.name.clone(),
                profile: s.meta.profile.clone(),
                auth_status: s.meta.auth_status.duplicate(),
                last_accessed: s.meta.last_accessed.clone(),
                active: s.handle.is_some(),
                acquired: s.acquired,
                ttl_hours: s.meta.ttl_hours,
                expires_at: clone_opt_string(&s.meta.expires_at),
                expired: is_expired_at(&s.meta.expires_at, now),
            };
            items.push(item);
            i = i + 1;
        }
        let total = items.len();
        Ok(ListSessionsResponse { sessions: items, total })
    }

    /// The sessions as the list API reports them now.
    pub fn list(&self) -> (res: Result<ListSessionsResponse, String>)
        ensures
            res matches Ok(r) && r.total == r.sessions@.len() && r.sessions@.len() == self.entries().len()
                && exists|now: (i64, u32)| #[trigger] listed_at(self.entries(), r.sessions@, now),
    {
        let now = utc_now();
        let res = self.list_at(now);
        assert(res matches Ok(r) && listed_at(self.entries(), r.sessions@, now));
        res
    }

    /// Checks that `source_name` can be copied to `new_name`; returns the
    /// profile whose directory the copy starts from.
    pub fn check_clone(&self, source_name: &str, new_name: &str) -> (res: Result<String, String>)
        requires
            self.wf(),
        ensures
            match lookup(self.entries(), source_name@) {
                None => res matches Err(e) && e@ == source_not_found_message(source_name@),
                Some(src) => if has_name(self.entries(), new_name@) {
                    res matches Err(e) && e@ == exists_message(new_name@)
                } else {
                    res matches Ok(p) && p == src.meta.profile
                },
            },
    {
        let i = match self.find(source_name) {
            Some(i) => i,
            None => {
                return Err(quoted_message("Source session '", source_name, "' not found"));
            },
        };
        if self.find(new_name).is_some() {
            return Err(quoted_message("Session '", new_name, "' already exists"));
        }
        Ok(self.sessions[i].meta.profile.clone())
    }

    /// Copies the session `source_name` to a new session `new_name` with the
    /// same authentication, TTL and history, no window, and its own profile
    /// named after it (the caller copies the profile directory first).
    pub fn clone_session(&mut self, source_name: &str, new_name: &str) -> (res: Result<(), String>)
        requires
            old(self).wf(),
        ensures
            final(self).wf(),
            final(self).max() == old(self).max(),
            final(self).idle_timeout() == old(self).idle_timeout(),
            match lookup(old(self).entries(), source_name@) {
                None => res matches Err(e) && e@ == source_not_found_message(source_name@)
                    && final(self).entries() == old(self).entries(),
                Some(src) => if has_name(old(self).entries(), new_name@) {
                    res matches Err(e) && e@ == exists_message(new_name@)
                        && final(self).entries() == old(self).entries()
                } else {
                    &&& res is Ok
                    &&& final(self).entries().len() == old(self).entries().len() + 1
                    &&& final(self).entries().drop_last() == old(self).entries()
                    &&& cloned_from(src.meta, final(self).entries().last(), new_name@)
                },
            },
    {
        let i = match self.find(source_name) {
            Some(i) => i,
            None => {
                return Err(quoted_message("Source session '", source_name, "' not found"));
            },
        };
        if self.find(new_name).is_some() {
            return Err(quoted_message("Session '", new_name, "' already exists"));
        }
        let source_meta = self.sessions[i].meta.duplicate();
        let now = chrono_now_iso8601();
        let ttl_hours = source_meta.ttl_hours;
        let expires_at = if ttl_hours > 0 {
            Some(chrono_add_hours(now.as_str(), ttl_hours))
        } else {
            None
        };
        let new_meta = NamedSessionMeta {
            name: owned(new_name),
            profile: owned(new_name),
            auth_status: source_meta.auth_status,
            last_accessed: now.clone(),
            auto_extend: source_meta.auto_extend,
            created_at: now,
            ttl_hours,
            expires_at,
            last_url: source_meta.last_url,
            navigation_history: source_meta.navigation_history,
            auto_restore: source_meta.auto_restore,
        };
        let new_session = NamedSession { meta: new_meta, handle: None, acquired: false };
        self.put(new_session);
        assert(self.sessions@.drop_last() =~= old(self).sessions@);
        Ok(())
    }

    /// Adds the sessions of a `sessions.json` file, without windows and not
    /// held, in file order: a later entry replaces an earlier one of the same
    /// name, and a session already present under that name.
    pub fn load_file(&mut self, file: SessionsFile)
        requires
            old(self).wf(),
        ensures
            final(self).wf(),
            final(self).max() == old(self).max(),
            final(self).idle_timeout() == old(self).idle_timeout(),
            forall|n: Seq<char>| #[trigger] lookup(final(self).entries(), n) == loaded_lookup(old(self).entries(), file.sessions@, n),
    {
        let mut entries = file.sessions;
        let ghost all = entries@;
        let total: usize = entries.len();
        let mut k: usize = 0;
        while k < total
            invariant
                all.len() == total,
                self.wf(),
                self.max_sessions == old(self).max_sessions,
                self.idle_timeout_secs == old(self).idle_timeout_secs,
                k <= all.len(),
                entries@ == all.skip(k as int),
                forall|n: Seq<char>| #[trigger] lookup(self.sessions@, n) == loaded_lookup(old(self).sessions@, all.take(k as int), n),
            decreases entries@.len(),
        {
            let (name, meta) = entries.remove(0);
            let ghost m = meta;
            let ghost nm = name;
            let ghost before = self.sessions@;
            let session = NamedSession { meta, handle: None, acquired: false };
            self.put(session);
            proof {
                assert(all[k as int] == (nm, m)) by {
                    assert(all.skip(k as int)[0] == all[k as int]);
                }
                assert(all.take(k + 1).drop_last() =~= all.take(k as int));
                assert(all.take(k + 1).last() == all[k as int]);
                assert(entries@ =~= all.skip(k + 1));
                assert forall|n: Seq<char>| #[trigger] lookup(self.sessions@, n) == loaded_lookup(old(self).sessions@, all.take(k + 1), n) by {
                    if n != m.name@ {
                        assert(lookup(self.sessions@, n) == lookup(before, n));
                    }
                }
            }
            k = k + 1;
        }
        proof {
            assert(all.take(k as int) =~= all);
        }
    }

    /// The contents of `sessions.json` for the current sessions: version 1
    /// and each session's metadata under its name, in order.
    pub fn to_file(&self) -> (r: SessionsFile)
        ensures
            r.version == 1,
            saved_as(r.sessions@, self.entries()),
    {
        let mut out: Vec<(String, NamedSessionMeta)> = Vec::new();
        let mut i: usize = 0;
        while i < self.sessions.len()
            invariant
                i <= self.sessions@.len(),
                out@.len() == i,
                forall|j: int| 0 <= j < i ==> #[trigger] out@[j].0 == self.sessions@[j].meta.name
                    && same_meta(out@[j].1, self.sessions@[j].meta),
            decreases self.sessions@.len() - i,
        {
            out.push((self.sessions[i].meta.name.clone(), self.sessions[i].meta.duplicate()));
            i = i + 1;
        }
        SessionsFile { version: 1, sessions: out }
    }
}

/// `Session '<name>' already exists`, `Session '<name>' warmed up`, or
/// `Failed to warm up '<name>': <error>`: the outcomes of warming `name`.
pub open spec fn warm_up_outcome(name: Seq<char>, r: Result<String, String>) -> bool {
    match r {
        Ok(m) => m@ == exists_message(name) || m@ == "Session '"@ + name + "' warmed up"@,
        Err(m) => exists|e: Seq<char>| m@ == "Failed to warm up '"@ + name + "': "@ + e,
    }
}

/// The request with which a session is warmed up: headless, reusing,
/// creating, with the default TTL and its own name as profile.
pub open spec fn warm_up_request(name: String) -> AcquireRequest {
    AcquireRequest {
        name,
        profile: Some(name),
        reuse: true,
        create_if_missing: true,
        headless: true,
        auth_check: None,
        ttl_hours: DEFAULT_TTL_HOURS,
        auto_extend: true,
        restore: false,
    }
}

/// Replacing a session by one of the same name keeps every name present.
pub proof fn lemma_replace_keeps_names(old_seq: Seq<NamedSession>, new_seq: Seq<NamedSession>, i: int)
    requires
        replaced_at(old_seq, new_seq, i),
        key(new_seq[i]) == key(old_seq[i]),
    ensures
        forall|n: Seq<char>| has_name(old_seq, n) ==> has_name(new_seq, n),
{
    assert forall|n: Seq<char>| has_name(old_seq, n) implies has_name(new_seq, n) by {
        let k = choose|k: int| 0 <= k < old_seq.len() && key(#[trigger] old_seq[k]) == n;
        if k != i {
            assert(new_seq[k] == old_seq[k]);
        }
        assert(key(new_seq[k]) == n);
    }
}

impl SessionManagerV2 {
    /// Warms up one session: acquires and releases it unless it exists.
    #[verifier::rlimit(50)]
    fn warm_one<F>(&mut self, name: &String, create_session_fn: &F) -> (r: Result<String, String>)
        where
            F: Fn(SessionOptions) -> Result<(String, SessionHandle), String>,
        requires
            old(self).wf(),
            forall|o: SessionOptions| create_session_fn.requires((o,)),
        ensures
            final(self).wf(),
            final(self).max() == old(self).max(),
            final(self).idle_timeout() == old(self).idle_timeout(),
            warm_up_outcome(name@, r),
            r is Ok ==> has_name(final(self).entries(), name@),
            forall|n: Seq<char>| has_name(old(self).entries(), n) ==> has_name(final(self).entries(), n),
    {
        if self.find(name.as_str()).is_some() {
            return Ok(quoted_message("Session '", name.as_str(), "' already exists"));
        }
        let request = AcquireRequest {
            name: name.clone(),
            profile: Some(name.clone()),
            reuse: true,
            create_if_missing: true,
            headless: true,
            auth_check: None,
            ttl_hours: default_ttl_hours(),
            auto_extend: true,
            restore: false,
        };
        let create = |o: SessionOptions| -> (r: Result<(String, SessionHandle), String>)
            requires
                create_session_fn.requires((o,)),
            ensures
                create_session_fn.ensures((o,), r),
            { create_session_fn(o) };
        let ghost before = self.sessions@;
        match self.acquire(request, create) {
            Ok(response) => {
                proof {
                    if has_name(before, name@) {
                        lemma_replace_keeps_names(before, self.sessions@, index_of(before, name@));
                    } else {
                        assert forall|n: Seq<char>| has_name(before, n) implies has_name(self.sessions@, n) by {
                            let k = choose|k: int| 0 <= k < before.len() && key(#[trigger] before[k]) == n;
                            assert(self.sessions@[k] == before[k]);
                        }
                    }
                }
                let ghost mid = self.sessions@;
                let _ = self.release(response.session.as_str());
                proof {
                    lemma_replace_keeps_names(mid, self.sessions@, index_of(mid, name@));
                }
                Ok(quoted_message("Session '", response.session.as_str(), "' warmed up"))
            },
            Err(e) => {
                let mut msg = quoted_message("Failed to warm up '", name.as_str(), "': ");
                push_str(&mut msg, e.as_str());
                Err(msg)
            },
        }
    }

    /// Opens sessions ahead of use: each name that is not yet a session is
    /// acquired (headless, with its own profile) and at once released.
    /// Returns one outcome per name, in order.
    pub fn warm_up<F>(&mut self, session_names: Vec<String>, create_session_fn: F) -> (results: Vec<Result<String, String>>)
        where
            F: Fn(SessionOptions) -> Result<(String, SessionHandle), String>,
        requires
            old(self).wf(),
            forall|o: SessionOptions| create_session_fn.requires((o,)),
        ensures
            final(self).wf(),
            final(self).max() == old(self).max(),
            final(self).idle_timeout() == old(self).idle_timeout(),
            results@.len() == session_names@.len(),
            forall|j: int| 0 <= j < session_names@.len() ==> warm_up_outcome(session_names@[j]@, #[trigger] results@[j]),
            forall|j: int| 0 <= j < session_names@.len() && (#[trigger] results@[j]) is Ok ==> has_name(final(self).entries(), session_names@[j]@),
            forall|n: Seq<char>| has_name(old(self).entries(), n) ==> has_name(final(self).entries(), n),
    {
        let mut results: Vec<Result<String, String>> = Vec::new();
        let mut i: usize = 0;
        while i < session_names.len()
            invariant
                self.wf(),
                self.max_sessions == old(self).max_sessions,
                self.idle_timeout_secs == old(self).idle_timeout_secs,
                forall|o: SessionOptions| create_session_fn.requires((o,)),
                i <= session_names@.len(),
                results@.len() == i,
                forall|j: int| 0 <= j < i ==> warm_up_outcome(session_names@[j]@, #[trigger] results@[j]),
                forall|j: int| 0 <= j < i && (#[trigger] results@[j]) is Ok ==> has_name(self.sessions@, session_names@[j]@),
                forall|n: Seq<char>| has_name(old(self).sessions@, n) ==> has_name(self.sessions@, n),
            decreases session_names@.len() - i,
        {
            let ghost before = self.sessions@;
            let r = self.warm_one(&session_names[i], &create_session_fn);
            results.push(r);
            i = i + 1;
        }
        results
    }
}


// ---------------------------------------------------------------------------
// Laws
// ---------------------------------------------------------------------------

/// A filter never chooses a session that a client holds.
pub open spec fn spares_held(f: spec_fn(NamedSession) -> bool) -> bool {
    forall|s: NamedSession| s.acquired ==> !f(s)
}

/// None of the cleanups (inactive, expired, idle, old) chooses a held
/// session.
pub proof fn law_cleanups_spare_held(now: (i64, u32), max_idle_seconds: u64, old_now: Option<(u64, u32)>, max_age_secs: nat)
    ensures
        spares_held(inactive_filter()),
        spares_held(expired_filter(now)),
        spares_held(idle_filter(now, max_idle_seconds)),
        spares_held(old_filter(old_now, max_age_secs)),
        spares_held(suspend_filter(now, max_idle_seconds)),
{
}

/// A held session is still there, unchanged, after a cleanup that spares
/// held sessions removes what it chooses.
pub proof fn law_held_session_survives(seq: Seq<NamedSession>, f: spec_fn(NamedSession) -> bool, name: Seq<char>)
    requires
        unique_names(seq),
        spares_held(f),
        lookup(seq, name) matches Some(s) && s.acquired,
    ensures
        lookup(select(seq, f, false), name) == lookup(seq, name),
{
    lemma_select(seq, f, false);
}

/// A cleanup splits the sessions: each is either removed or kept, so the
/// removed and the kept together number as many as there were.
pub proof fn law_cleanup_partitions(seq: Seq<NamedSession>, f: spec_fn(NamedSession) -> bool)
    ensures
        select(seq, f, true).len() + select(seq, f, false).len() == seq.len(),
    decreases seq.len(),
{
    if seq.len() > 0 {
        law_cleanup_partitions(seq.drop_first(), f);
    }
}

/// Loading entries none of whose names is `n` leaves the session named `n`
/// as it was.
proof fn lemma_loaded_absent(seq: Seq<NamedSession>, file: Seq<(String, NamedSessionMeta)>, n: Seq<char>)
    requires
        forall|j: int| 0 <= j < file.len() ==> (#[trigger] file[j]).1.name@ != n,
    ensures
        loaded_lookup(seq, file, n) == lookup(seq, n),
    decreases file.len(),
{
    if file.len() > 0 {
        assert(file.last() == file[file.len() - 1]);
        assert forall|j: int| 0 <= j < file.drop_last().len() implies (#[trigger] file.drop_last()[j]).1.name@ != n by {
            assert(file.drop_last()[j] == file[j]);
        }
        lemma_loaded_absent(seq, file.drop_last(), n);
    }
}

/// Loading entries of which exactly the one at `i` carries the name `n`
/// gives that entry's metadata under `n`.
proof fn lemma_loaded_single(seq: Seq<NamedSession>, file: Seq<(String, NamedSessionMeta)>, n: Seq<char>, i: int)
    requires
        0 <= i < file.len(),
        file[i].1.name@ == n,
        forall|j: int| 0 <= j < file.len() && j != i ==> (#[trigger] file[j]).1.name@ != n,
    ensures
        loaded_lookup(seq, file, n) == Some(NamedSession { meta: file[i].1, handle: None, acquired: false }),
    decreases file.len(),
{
    assert(file.last() == file[file.len() - 1]);
    if i != file.len() - 1 {
        assert forall|j: int| 0 <= j < file.drop_last().len() && j != i implies (#[trigger] file.drop_last()[j]).1.name@ != n by {
            assert(file.drop_last()[j] == file[j]);
        }
        assert(file.drop_last()[i] == file[i]);
        lemma_loaded_single(seq, file.drop_last(), n, i);
    }
}

/// Saving the sessions and loading the saved entries into an empty manager
/// gives back every session under its name, with the same metadata, without
/// window and not held, and no other session.
pub proof fn law_saved_sessions_reload(seq: Seq<NamedSession>, file: Seq<(String, NamedSessionMeta)>, n: Seq<char>)
    requires
        unique_names(seq),
        saved_as(file, seq),
    ensures
        loaded_lookup(Seq::empty(), file, n) is Some <==> has_name(seq, n),
        has_name(seq, n) ==> {
            let s = loaded_lookup(Seq::empty(), file, n)->0;
            &&& same_meta(s.meta, lookup(seq, n)->0.meta)
            &&& s.handle is None
            &&& !s.acquired
        },
{
    if has_name(seq, n) {
        let i = index_of(seq, n);
        assert(file[i].1.name@ == n) by {
            assert(file[i].0 == seq[i].meta.name);
        }
        assert forall|j: int| 0 <= j < file.len() && j != i implies (#[trigger] file[j]).1.name@ != n by {
            assert(file[j].0 == seq[j].meta.name);
            assert(key(seq[j]) != key(seq[i]));
        }
        lemma_loaded_single(Seq::empty(), file, n, i);
    } else {
        assert forall|j: int| 0 <= j < file.len() implies (#[trigger] file[j]).1.name@ != n by {
            assert(file[j].0 == seq[j].meta.name);
            if file[j].1.name@ == n {
                assert(key(seq[j]) == n);
            }
        }
        lemma_loaded_absent(Seq::empty(), file, n);
        assert(!has_name(Seq::<NamedSession>::empty(), n));
    }
}

/// The navigation history never grows beyond `MAX_HISTORY` entries and, after
/// a navigation, ends with the URL navigated to.
pub proof fn law_history_bounded(h: Seq<Seq<char>>, url: Seq<char>)
    requires
        h.len() <= MAX_HISTORY,
    ensures
        history_after(h, url).len() <= MAX_HISTORY,
        history_after(h, url).len() > 0,
        history_after(h, url).last() == url,
{
}

} // verus!
