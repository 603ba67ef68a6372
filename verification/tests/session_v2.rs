use webview_bridge::clock::chrono_now_iso8601;
use webview_bridge::session::SessionOptions;
use webview_bridge::session_v2::{
    default_auto_restore, default_true, default_ttl_hours, AcquireRequest, AuthStatus, SessionHandle,
    SessionManagerV2, SessionPoolStats, SessionsFile,
};

fn request(name: &str) -> AcquireRequest {
    AcquireRequest {
        name: name.to_string(),
        profile: None,
        reuse: true,
        create_if_missing: true,
        headless: false,
        auth_check: None,
        ttl_hours: 168,
        auto_extend: true,
        restore: false,
    }
}

fn open_window(id: &str) -> impl FnOnce(SessionOptions) -> Result<(String, SessionHandle), String> {
    let id = id.to_string();
    move |_opts: SessionOptions| Ok((id.clone(), SessionHandle { id }))
}

#[test]
fn test_iso8601_format() {
    let ts = chrono_now_iso8601();
    assert!(ts.contains('T'));
    assert!(ts.ends_with('Z'));
    assert!(ts.len() >= 20);
}

#[test]
fn test_sessions_file_new() {
    let file = SessionsFile::new();
    assert!(file.sessions.is_empty());
}

#[test]
fn test_session_pool_stats_default() {
    let stats = SessionPoolStats::default();
    assert_eq!(stats.total, 0);
    assert_eq!(stats.active, 0);
    assert_eq!(stats.acquired, 0);
    assert_eq!(stats.idle, 0);
    assert_eq!(stats.max_sessions, 0);
}

#[test]
fn test_default_true() {
    assert!(default_true());
}

#[test]
fn test_session_manager_new() {
    let manager = SessionManagerV2::new(10);
    let stats = manager.stats();
    assert_eq!(stats.max_sessions, 10);
}

#[test]
fn test_session_manager_with_idle_timeout() {
    let _manager = SessionManagerV2::new(10).with_idle_timeout(3600);
}

#[test]
fn test_session_manager_stats() {
    let manager = SessionManagerV2::new(5);
    let stats = manager.stats();
    assert_eq!(stats.total, 0);
    assert_eq!(stats.max_sessions, 5);
}

#[test]
fn session_defaults() {
    assert_eq!(default_ttl_hours(), 168);
    assert!(default_auto_restore());
    let a = AuthStatus::default();
    assert!(!a.logged_in);
    assert!(a.checked_at.is_none());
}

#[test]
fn acquire_creates_then_reuses() {
    let mut m = SessionManagerV2::new(3);
    let first = m.acquire(request("main"), open_window("w1")).unwrap();
    assert!(first.is_new);
    assert_eq!(first.session, "main");
    assert_eq!(m.count(), 1);
    assert_eq!(m.stats().acquired, 1);

    m.release("main").unwrap();
    assert_eq!(m.stats().acquired, 0);
    let again = m.acquire(request("main"), open_window("unused")).unwrap();
    assert!(!again.is_new);
    assert_eq!(again.session, "main");
    assert_eq!(m.count(), 1);
}

#[test]
fn acquire_refuses_beyond_the_limit() {
    let mut m = SessionManagerV2::new(1);
    m.acquire(request("a"), open_window("w1")).unwrap();
    let err = m.acquire(request("b"), open_window("w2")).unwrap_err();
    assert_eq!(err, "Maximum active sessions (1) reached");
    assert_eq!(m.count(), 1);
}

#[test]
fn acquire_without_create_reports_missing() {
    let mut m = SessionManagerV2::new(2);
    let mut req = request("ghost");
    req.create_if_missing = false;
    let err = m.acquire(req, open_window("w")).unwrap_err();
    assert_eq!(err, "Session 'ghost' not found and create_if_missing is false");
}

#[test]
fn held_sessions_survive_cleanup() {
    let mut m = SessionManagerV2::new(5);
    m.acquire(request("held"), open_window("w1")).unwrap();
    m.acquire(request("free"), open_window("w2")).unwrap();
    m.release("free").unwrap();
    let closed = m.cleanup_inactive().unwrap();
    assert_eq!(closed, vec!["w2".to_string()]);
    assert!(m.get("held").is_some());
    assert!(m.get("free").is_none());
    let stats = m.stats();
    assert_eq!(stats.idle, stats.total - stats.acquired);
}

#[test]
fn history_is_bounded_and_ends_with_last_url() {
    let mut m = SessionManagerV2::new(5);
    m.acquire(request("nav"), open_window("w1")).unwrap();
    for i in 0..60 {
        m.update_last_url("nav", &format!("https://example.com/{}", i)).unwrap();
    }
    m.update_last_url("nav", "https://example.com/59").unwrap();
    let history = m.get_navigation_history("nav");
    assert_eq!(history.len(), 50);
    assert_eq!(history.last().unwrap(), "https://example.com/59");
    assert_eq!(m.get_last_url("nav"), Some("https://example.com/59".to_string()));
    assert!(m.update_last_url("missing", "x").is_err());
}

#[test]
fn release_unknown_session_fails() {
    let mut m = SessionManagerV2::new(5);
    assert_eq!(m.release("nope").unwrap_err(), "Session 'nope' not found");
}

#[test]
fn clone_copies_metadata_under_new_name() {
    let mut m = SessionManagerV2::new(5);
    m.acquire(request("src"), open_window("w1")).unwrap();
    m.release("src").unwrap();
    m.clone_session("src", "copy").unwrap();
    assert_eq!(m.count(), 2);
    assert!(m.clone_session("src", "copy").is_err());
    assert!(m.clone_session("none", "other").is_err());
}

#[test]
fn destroy_removes_and_returns_window() {
    let mut m = SessionManagerV2::new(5);
    m.acquire(request("x"), open_window("w9")).unwrap();
    assert_eq!(m.destroy("x").unwrap(), Some("w9".to_string()));
    assert_eq!(m.count(), 0);
    assert!(m.destroy("x").is_err());
}

#[test]
fn sessions_round_trip_through_file() {
    let mut m = SessionManagerV2::new(5);
    m.acquire(request("keep"), open_window("w1")).unwrap();
    let file = m.to_file();
    assert_eq!(file.sessions.len(), 1);
    let mut fresh = SessionManagerV2::new(5);
    fresh.load_file(file);
    assert!(fresh.get("keep").is_some());
    let listed = fresh.list().unwrap();
    assert_eq!(listed.total, 1);
    assert_eq!(listed.sessions[0].name, "keep");
}

#[test]
fn later_file_entry_replaces_earlier() {
    let mut a = SessionManagerV2::new(5);
    a.acquire(request("dup"), open_window("w1")).unwrap();
    let first = a.to_file();
    let mut meta = first.sessions[0].1.clone();
    meta.profile = "other-profile".to_string();
    let mut file = SessionsFile::new();
    file.sessions.push(first.sessions[0].clone());
    file.sessions.push(("dup".to_string(), meta));
    let mut fresh = SessionManagerV2::new(5);
    fresh.load_file(file);
    assert_eq!(fresh.count(), 1);
    assert_eq!(fresh.get("dup").unwrap().meta.profile, "other-profile");
}

#[test]
fn check_auth_records_the_outcome() {
    let mut m = SessionManagerV2::new(5);
    m.acquire(request("site"), open_window("w1")).unwrap();
    let st = m.check_auth("site", Ok(true), Some(Ok(false))).unwrap();
    assert!(st.logged_in);
    assert!(st.checked_at.is_some());
    assert!(m.get("site").unwrap().meta.auth_status.logged_in);
    let st = m.check_auth("site", Ok(true), Some(Ok(true))).unwrap();
    assert!(!st.logged_in);
    assert!(!m.get("site").unwrap().meta.auth_status.logged_in);
    let st = m.check_auth("site", Ok(true), Some(Err("gone".to_string()))).unwrap();
    assert!(st.logged_in);
    assert_eq!(m.check_auth("site", Err("nav failed".to_string()), None).unwrap_err(), "nav failed");
    assert!(m.check_auth("nobody", Ok(true), None).is_err());
}

#[test]
fn orphaned_profiles_are_the_unused_directories() {
    let mut m = SessionManagerV2::new(5);
    m.acquire(request("work"), open_window("w1")).unwrap();
    let dirs = vec!["old".to_string(), "work".to_string(), "stale".to_string()];
    assert_eq!(m.orphaned_profiles(&dirs), vec!["old".to_string(), "stale".to_string()]);
    assert!(SessionManagerV2::new(5).orphaned_profiles(&Vec::new()).is_empty());
}

#[test]
fn last_access_in_the_future_is_not_idle() {
    let mut a = SessionManagerV2::new(5);
    a.acquire(request("later"), open_window("w1")).unwrap();
    a.acquire(request("before"), open_window("w2")).unwrap();
    let saved = a.to_file();
    let mut file = SessionsFile::new();
    for (name, meta) in saved.sessions.iter() {
        let mut meta = meta.clone();
        meta.last_accessed = if name == "later" {
            "2999-01-01T00:00:00Z".to_string()
        } else {
            "2000-01-01T00:00:00Z".to_string()
        };
        file.sessions.push((name.clone(), meta));
    }
    let mut m = SessionManagerV2::new(5);
    m.load_file(file);
    let removed = m.cleanup_idle(60);
    assert_eq!(removed, vec!["before".to_string()]);
    assert!(m.get("later").is_some());
}

#[test]
fn idle_time_is_compared_to_the_nanosecond() {
    let mut a = SessionManagerV2::new(5);
    a.acquire(request("ahead"), open_window("w1")).unwrap();
    a.acquire(request("exact"), open_window("w2")).unwrap();
    let saved = a.to_file();
    let mut file = SessionsFile::new();
    for (name, meta) in saved.sessions.iter() {
        let mut meta = meta.clone();
        meta.last_accessed = if name == "ahead" {
            "1970-01-01T00:00:00.5Z".to_string()
        } else {
            "1970-01-01T00:00:00Z".to_string()
        };
        file.sessions.push((name.clone(), meta));
    }
    let mut m = SessionManagerV2::new(5);
    m.load_file(file);
    let removed = m.take_idle_at(0, (0, 0));
    assert_eq!(removed.len(), 1);
    assert_eq!(removed[0].meta.name, "exact");
    assert!(m.get("ahead").is_some());
}
