//! The settings sections of the application configuration, with their
//! defaults, and the lookup of a session's auto-login settings.

use vstd::prelude::*;

use crate::text::{owned, str_eq};

verus! {

/// The address the server binds to unless configured otherwise.
pub fn default_bind() -> (r: String)
    ensures
        r@ == "127.0.0.1"@,
{
    owned("127.0.0.1")
}

/// The port the server listens on unless configured otherwise.
pub fn default_port() -> (r: u16)
    ensures
        r == 9400,
{
    9400
}

/// The number of concurrent sessions unless configured otherwise.
pub fn default_max_sessions() -> (r: usize)
    ensures
        r == 10,
{
    10
}

/// Default window width in pixels.
pub fn default_width() -> (r: u32)
    ensures
        r == 1280,
{
    1280
}

/// Default window height in pixels.
pub fn default_height() -> (r: u32)
    ensures
        r == 720,
{
    720
}

/// Session timeout in seconds; 0 means none.
pub fn default_session_timeout() -> (r: u64)
    ensures
        r == 0,
{
    0
}

/// The video quality asked of the downloader unless configured otherwise.
pub fn default_video_quality() -> (r: String)
    ensures
        r@ == "hd"@,
{
    owned("hd")
}

/// Wait before a submit click, in milliseconds, so that bot-detection
/// challenges can finish.
pub fn default_pre_submit_wait_ms() -> (r: u64)
    ensures
        r == 1000,
{
    1000
}

/// How long a challenge script is polled, in milliseconds.
pub fn default_challenge_timeout_ms() -> (r: u64)
    ensures
        r == 15000,
{
    15000
}

/// Server section of the configuration.
#[derive(Debug, Clone)]
pub struct ServerConfig {
    pub bind: String,
    pub port: u16,
    pub max_sessions: usize,
    /// Whether API authentication is switched off.
    pub no_auth: bool,
}

impl Default for ServerConfig {
    /// Local address, port 9400, ten sessions, and authentication on.
    fn default() -> (r: Self)
        ensures
            r.bind@ == "127.0.0.1"@,
            r.port == 9400,
            r.max_sessions == 10,
            !r.no_auth,
    {
        ServerConfig {
            bind: default_bind(),
            port: default_port(),
            max_sessions: default_max_sessions(),
            no_auth: false,
        }
    }
}

/// Auto-login settings of a named session: where the credentials come from
/// and the selectors of the login form.
#[derive(Debug, Clone)]
pub struct AutoLoginConfig {
    pub op_item: Option<String>,
    pub op_vault: Option<String>,
    pub username: Option<String>,
    pub password: Option<String>,
    pub username_selector: String,
    pub password_selector: String,
    pub submit_selector: String,
    pub logged_in_selector: Option<String>,
    pub login_url: Option<String>,
    pub otp_selector: Option<String>,
    pub otp_op_ref: Option<String>,
    pub extra_steps: Vec<AutoLoginStep>,
}

/// One further step of a multi-step login.
#[derive(Debug, Clone)]
pub struct AutoLoginStep {
    pub wait_url_contains: Option<String>,
    pub op_item: Option<String>,
    pub op_vault: Option<String>,
    pub username: Option<String>,
    pub password: Option<String>,
    pub username_selector: Option<String>,
    pub next_selector: Option<String>,
    pub wait_password_selector: Option<String>,
    pub password_selector: Option<String>,
    pub submit_selector: Option<String>,
    pub done_selector: Option<String>,
    pub otp_selector: Option<String>,
    pub otp_op_ref: Option<String>,
    pub pre_submit_wait_ms: u64,
    pub challenge_done_js: Option<String>,
    pub challenge_timeout_ms: u64,
}

/// Session section of the configuration.
#[derive(Debug, Clone)]
pub struct SessionSettings {
    pub default_headless: bool,
    pub default_width: u32,
    pub default_height: u32,
    /// Session timeout in seconds; 0 means none.
    pub timeout_seconds: u64,
    pub persist_profiles: bool,
    /// Auto-login settings by session name.
    pub auto_login: Vec<(String, AutoLoginConfig)>,
    pub op_path: Option<String>,
    pub op_service_account_token: Option<String>,
}

impl Default for SessionSettings {
    /// Visible 1280x720 windows, no timeout, persistent profiles and no
    /// auto-login settings.
    fn default() -> (r: Self)
        ensures
            !r.default_headless,
            r.default_width == 1280,
            r.default_height == 720,
            r.timeout_seconds == 0,
            r.persist_profiles,
            r.auto_login@.len() == 0,
            r.op_path is None,
            r.op_service_account_token is None,
    {
        SessionSettings {
            default_headless: false,
            default_width: default_width(),
            default_height: default_height(),
            timeout_seconds: default_session_timeout(),
            persist_profiles: true,
            auto_login: Vec::new(),
            op_path: None,
            op_service_account_token: None,
        }
    }
}

impl SessionSettings {
    /// The auto-login settings configured for the session `name`.
    pub fn auto_login_for(&self, name: &str) -> (r: Option<&AutoLoginConfig>)
        ensures
            r is Some <==> exists|i: int|
                0 <= i < self.auto_login@.len() && (#[trigger] self.auto_login@[i]).0@ == name@,
            r matches Some(c) ==> exists|i: int|
                0 <= i < self.auto_login@.len() && (#[trigger] self.auto_login@[i]).0@ == name@
                    && self.auto_login@[i].1 == *c && forall|j: int|
                    0 <= j < i ==> self.auto_login@[j].0@ != name@,
    {
        let mut i: usize = 0;
        while i < self.auto_login.len()
            invariant
                i <= self.auto_login@.len(),
                forall|j: int| 0 <= j < i ==> self.auto_login@[j].0@ != name@,
            decreases self.auto_login@.len() - i,
        {
            if str_eq(self.auto_login[i].0.as_str(), name) {
                return Some(&self.auto_login[i].1);
            }
            i = i + 1;
        }
        None
    }
}

/// Media section of the configuration.
#[derive(Debug, Clone)]
pub struct MediaSettings {
    pub download_dir: Option<String>,
    pub screenshots_dir: Option<String>,
    /// Largest download in bytes; 0 means unlimited.
    pub max_download_size: u64,
    pub default_video_quality: String,
}

impl Default for MediaSettings {
    /// No directories set, no size limit, HD video.
    fn default() -> (r: Self)
        ensures
            r.download_dir is None,
            r.screenshots_dir is None,
            r.max_download_size == 0,
            r.default_video_quality@ == "hd"@,
    {
        MediaSettings {
            download_dir: None,
            screenshots_dir: None,
            max_download_size: 0,
            default_video_quality: default_video_quality(),
        }
    }
}

} // verus!
