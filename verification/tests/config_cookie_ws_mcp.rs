use webview_bridge::config::{
    default_bind, default_challenge_timeout_ms, default_height, default_max_sessions, default_port,
    default_pre_submit_wait_ms, default_session_timeout, default_video_quality, default_width, AutoLoginConfig,
    MediaSettings, ServerConfig, SessionSettings,
};
use webview_bridge::cookie_import::{
    default_profile, filter_cookies, is_chromium_profile, is_firefox_default_profile, matches_domain_filter,
    summarize_cookies, BrowserType, ImportedCookie,
};
use webview_bridge::mcp::{
    list_resources, resource_kind, resource_reply, server_info, snapshot_mime, text_content, tool_call_reply,
    ResourceKind,
};
use webview_bridge::websocket::{ClientRegistry, WbpEvent};

fn cookie(domain: &str) -> ImportedCookie {
    ImportedCookie {
        name: "n".to_string(),
        value: String::new(),
        domain: domain.to_string(),
        path: "/".to_string(),
        secure: false,
        http_only: false,
        expires: None,
    }
}

fn login(user_sel: &str) -> AutoLoginConfig {
    AutoLoginConfig {
        op_item: None,
        op_vault: None,
        username: Some("me".to_string()),
        password: None,
        username_selector: user_sel.to_string(),
        password_selector: "#p".to_string(),
        submit_selector: "#go".to_string(),
        logged_in_selector: None,
        login_url: None,
        otp_selector: None,
        otp_op_ref: None,
        extra_steps: vec![],
    }
}

#[test]
fn server_defaults() {
    let c = ServerConfig::default();
    assert_eq!(c.bind, "127.0.0.1");
    assert_eq!(c.port, 9400);
    assert_eq!(c.max_sessions, 10);
    assert!(!c.no_auth);
    assert_eq!(default_bind(), "127.0.0.1");
    assert_eq!(default_port(), 9400);
    assert_eq!(default_max_sessions(), 10);
}

#[test]
fn session_and_media_defaults() {
    let s = SessionSettings::default();
    assert!(!s.default_headless);
    assert_eq!((s.default_width, s.default_height), (1280, 720));
    assert_eq!(s.timeout_seconds, 0);
    assert!(s.persist_profiles);
    assert!(s.auto_login.is_empty());
    let m = MediaSettings::default();
    assert_eq!(m.default_video_quality, "hd");
    assert_eq!(m.max_download_size, 0);
    assert_eq!(default_width(), 1280);
    assert_eq!(default_height(), 720);
    assert_eq!(default_session_timeout(), 0);
    assert_eq!(default_video_quality(), "hd");
    assert_eq!(default_pre_submit_wait_ms(), 1000);
    assert_eq!(default_challenge_timeout_ms(), 15000);
}

#[test]
fn auto_login_lookup_by_session_name() {
    let mut s = SessionSettings::default();
    s.auto_login.push(("rms".to_string(), login("#u1")));
    s.auto_login.push(("shop".to_string(), login("#u2")));
    assert_eq!(s.auto_login_for("shop").unwrap().username_selector, "#u2");
    assert!(s.auto_login_for("none").is_none());
}

#[test]
fn domain_filter() {
    let filter = vec!["google.com".to_string()];
    assert!(matches_domain_filter(".google.com", &filter));
    assert!(!matches_domain_filter("example.org", &filter));
    assert!(matches_domain_filter("example.org", &[]));
    let kept = filter_cookies(vec![cookie("a.google.com"), cookie("b.org"), cookie("google.com")], &filter);
    let domains: Vec<&str> = kept.iter().map(|c| c.domain.as_str()).collect();
    assert_eq!(domains, vec!["a.google.com", "google.com"]);
}

#[test]
fn cookie_summary_counts_per_domain() {
    let cookies = vec![cookie(".example.com"), cookie("example.com"), cookie("other.org")];
    let mut summary = summarize_cookies(&cookies);
    summary.sort();
    assert_eq!(summary, vec![("example.com".to_string(), 2), ("other.org".to_string(), 1)]);
    assert!(summarize_cookies(&[]).is_empty());
}

#[test]
fn browser_profile_names() {
    assert!(is_chromium_profile("Default"));
    assert!(is_chromium_profile("Profile 2"));
    assert!(!is_chromium_profile("System Profile"));
    assert!(is_firefox_default_profile("abcd.default-release"));
    assert!(is_firefox_default_profile("abcd.default"));
    assert!(!is_firefox_default_profile("abcd.dev-edition"));
    assert_eq!(default_profile(), "Default");
    assert_ne!(BrowserType::Chrome, BrowserType::Edge);
}

#[test]
fn test_wbp_event_timestamp() {
    let ts = WbpEvent::timestamp();
    assert!(!ts.is_empty());
    assert!(ts.ends_with('Z'));
    assert!(ts.contains('.'));
}

#[test]
fn timestamp_has_three_digit_millis() {
    assert_eq!(WbpEvent::timestamp_at(1234567890, 5_000_000), "1234567890.005Z");
    assert_eq!(WbpEvent::timestamp_at(0, 999_999_999), "0.999Z");
}

#[test]
fn test_client_registration() {
    let mut hub = ClientRegistry::new();
    hub.register_client("client1", vec!["session1".to_string()]);
    assert_eq!(hub.client_count(), 1);
    hub.unregister_client("client1");
    assert_eq!(hub.client_count(), 0);
}

#[test]
fn test_multiple_clients() {
    let mut hub = ClientRegistry::new();
    hub.register_client("client1", vec!["s1".to_string()]);
    hub.register_client("client2", vec!["s2".to_string()]);
    hub.register_client("client3", vec!["s1".to_string(), "s2".to_string()]);
    assert_eq!(hub.client_count(), 3);
    hub.unregister_client("client2");
    assert_eq!(hub.client_count(), 2);
}

#[test]
fn reregistering_replaces_subscriptions() {
    let mut hub = ClientRegistry::new();
    hub.register_client("c", vec!["a".to_string()]);
    hub.register_client("c", vec!["b".to_string()]);
    assert_eq!(hub.client_count(), 1);
    assert_eq!(hub.clients.get("c").unwrap().subscribed_sessions, vec!["b".to_string()]);
}

#[test]
fn mcp_resources() {
    let r = list_resources();
    let uris: Vec<&str> = r.iter().map(|x| x.uri.as_str()).collect();
    assert_eq!(uris, vec!["browser://current/html", "browser://current/text", "browser://current/screenshot"]);
    assert_eq!(resource_kind("browser://current/text"), Some(ResourceKind::Text));
    assert_eq!(resource_kind("browser://other"), None);
    assert_eq!(snapshot_mime("html"), "text/html");
    assert_eq!(snapshot_mime("text"), "text/plain");
    let info = server_info("1.2.3");
    assert_eq!(info.name, "webview-bridge");
    assert_eq!(info.protocol_version, "2024-11-05");
}

#[test]
fn mcp_replies() {
    let r = tool_call_reply(Err("no window".to_string()), Ok(vec![]));
    assert!(r.is_error);
    assert_eq!(r.content[0].text.as_deref(), Some("Session error: no window"));
    let r = tool_call_reply(Ok(()), Err("bad".to_string()));
    assert_eq!(r.content[0].text.as_deref(), Some("Error: bad"));
    let r = tool_call_reply(Ok(()), Ok(vec![text_content("hi".to_string())]));
    assert!(!r.is_error);
    assert_eq!(r.content[0].content_type, "text");
    let rr = resource_reply("u".to_string(), Ok(()), Err("gone".to_string()));
    assert_eq!(rr.contents[0].text.as_deref(), Some("Error: gone"));
    assert_eq!(rr.contents[0].mime_type, "text/plain");
    let rr = resource_reply(
        "u".to_string(),
        Ok(()),
        Ok((None, Some("AAAA".to_string()), "image/png".to_string())),
    );
    assert_eq!(rr.contents[0].blob.as_deref(), Some("AAAA"));
    assert_eq!(rr.contents[0].uri, "u");
}
