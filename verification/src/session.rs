//! Types shared by the session layers: how a browser session is opened,
//! its lifecycle status, and the actions the `act` API accepts.

use vstd::prelude::*;

verus! {

/// How a browser session window is opened.
#[derive(Debug, Clone)]
pub struct SessionOptions {
    pub profile: String,
    pub headless: bool,
    pub user_agent: Option<String>,
    /// Window title (defaults to the session id when absent).
    pub window_title: Option<String>,
}

/// Lifecycle status of a browser session.
#[derive(Debug, Clone, Copy, PartialEq, Eq, Structural)]
pub enum SessionStatus {
    Initializing,
    Ready,
    Busy,
    Error,
}

/// One step of the `act` API: a kind (`click`, `type`, ...), the element it
/// targets, optional text, and an optional delay.
#[derive(Debug, Clone)]
pub struct ActionItem {
    pub kind: String,
    pub ref_attr: Option<String>,
    pub text: Option<String>,
    pub delay_ms: Option<u64>,
}

/// Session status as the API reports it.
#[derive(Debug, Clone)]
pub struct SessionStatusInfo {
    pub id: String,
    pub status: String,
    pub url: Option<String>,
    pub options: Option<SessionOptions>,
}

} // verus!
