use webview_bridge::cli::{generate_auth_token, parse_cli, parse_port, CliOutcome, TOKEN_CHARSET};
use webview_bridge::session::{ActionItem, SessionOptions, SessionStatus};
use webview_bridge::session_pool::{
    accept_capture_data, act_reply, capture_poll_step, idle_session_ids, plan_act, status_name, window_title,
    ActStep, CaptureStep, SessionPool,
};
use webview_bridge::upload::{can_store_filename, sanitize_and_store_filename, try_sanitize_and_store_filename};

fn args(v: &[&str]) -> (Vec<String>, Vec<bool>) {
    let a: Vec<String> = v.iter().map(|s| s.to_string()).collect();
    let ok = a.iter().map(|s| s == "0.0.0.0" || s == "127.0.0.1").collect();
    (a, ok)
}

fn options() -> SessionOptions {
    SessionOptions { profile: "default".to_string(), headless: true, user_agent: None, window_title: None }
}

#[test]
fn command_line() {
    let (a, ok) = args(&["wb", "--port", "8080", "--bind", "0.0.0.0"]);
    assert_eq!(parse_cli(&a, &ok), CliOutcome::Run { bind: Some("0.0.0.0".to_string()), port: Some(8080) });
    let (a, ok) = args(&["wb", "-h", "--port", "x"]);
    assert_eq!(parse_cli(&a, &ok), CliOutcome::Help);
    let (a, ok) = args(&["wb", "--port", "70000"]);
    assert_eq!(parse_cli(&a, &ok), CliOutcome::InvalidPort("70000".to_string()));
    let (a, ok) = args(&["wb", "--bind", "nowhere", "--port", "x"]);
    assert_eq!(parse_cli(&a, &ok), CliOutcome::InvalidBind("nowhere".to_string()));
    let (a, ok) = args(&["wb", "--verbose", "--port"]);
    assert_eq!(parse_cli(&a, &ok), CliOutcome::Run { bind: None, port: None });
    assert_eq!(parse_port("+443"), Some(443));
}

#[test]
fn auth_tokens() {
    let t = generate_auth_token();
    assert_eq!(t.len(), 32);
    assert!(t.chars().all(|c| TOKEN_CHARSET.contains(c)));
    assert_ne!(generate_auth_token(), t);
}

#[test]
fn test_create_session() {
    let mut pool = SessionPool::new(5);
    assert!(pool.create_session("s1".to_string(), options()).is_ok());
    assert_eq!(pool.get_session_status("s1"), Some(SessionStatus::Initializing));
}

#[test]
fn test_session_limit() {
    let mut pool = SessionPool::new(1);
    assert!(pool.create_session("a".to_string(), options()).is_ok());
    let err = pool.create_session("b".to_string(), options()).unwrap_err();
    assert_eq!(
        err,
        "Maximum session limit reached (1/1). Release unused sessions: wb session release <name> or POST /session/release"
    );
    assert_eq!(pool.get_session_count(), 1);
}

#[test]
fn pool_info_and_removal() {
    let mut pool = SessionPool::with_idle_timeout(3, 60);
    assert_eq!(pool.get_idle_timeout(), 60);
    assert_eq!(SessionPool::new(3).get_idle_timeout(), 300);
    pool.create_session("s".to_string(), options()).unwrap();
    pool.set_status("s", SessionStatus::Ready);
    pool.set_current_url("s", "https://x".to_string());
    let info = pool.get_info("s").unwrap();
    assert_eq!(info.status, "Ready");
    assert_eq!(info.url.as_deref(), Some("https://x"));
    assert_eq!(pool.get_info("t").unwrap_err(), "Session not found: t");
    assert!(pool.remove_session("s").is_ok());
    assert_eq!(pool.remove_session("s").unwrap_err(), "Session not found: s");
    assert_eq!(status_name(SessionStatus::Busy), "Busy");
}

#[test]
fn idle_selection_is_strict() {
    let idle = vec![
        ("a".to_string(), (300u64, 0u32)),
        ("b".to_string(), (300u64, 1u32)),
        ("c".to_string(), (10u64, 0u32)),
        ("d".to_string(), (900u64, 0u32)),
    ];
    assert_eq!(idle_session_ids(&idle, 300), vec!["b".to_string(), "d".to_string()]);
}

#[test]
fn window_thread_decisions() {
    let mut o = options();
    assert_eq!(window_title(&o, "id1"), "WebView Bridge - id1");
    o.window_title = Some("Shop".to_string());
    assert_eq!(window_title(&o, "id1"), "WB: Shop");
    let act = ActionItem { kind: "type".to_string(), ref_attr: Some("#q".to_string()), text: None, delay_ms: None };
    let step = plan_act(&act).unwrap();
    assert_eq!(step, ActStep::Type { selector: "#q".to_string(), text: String::new() });
    assert_eq!(act_reply(&step), "Text typed");
    let bad = ActionItem { kind: "hover".to_string(), ref_attr: None, text: None, delay_ms: None };
    assert_eq!(plan_act(&bad).unwrap_err(), "Unknown action kind: hover");
    assert_eq!(capture_poll_step("done", true, None), CaptureStep::FetchData);
    assert_eq!(capture_poll_step("done", false, None), CaptureStep::KeepPolling);
    assert_eq!(capture_poll_step("error", false, None), CaptureStep::Failed("html2canvas failed: Unknown error".to_string()));
    assert_eq!(accept_capture_data("\"iVBORw0KG\""), Some("iVBORw0KG".to_string()));
    assert_eq!(accept_capture_data("\"abc\""), None);
    assert!(accept_capture_data(&"A".repeat(1001)).is_some());
}

#[test]
fn stored_upload_names() {
    let n = sanitize_and_store_filename("../dir\\my file?.pdf");
    assert_eq!(n.len(), 8 + 1 + "my_file_.pdf".len());
    assert!(n.ends_with("_my_file_.pdf"));
    assert!(sanitize_and_store_filename("..").ends_with("_upload"));
    assert!(sanitize_and_store_filename("a/").ends_with("_upload"));
    let long = "x".repeat(300);
    let n = sanitize_and_store_filename(&long);
    assert_eq!(n.len(), 8 + 1 + 200);
    let awkward = format!("{}é", "x".repeat(199));
    assert!(!can_store_filename(&awkward));
    assert_eq!(try_sanitize_and_store_filename(&awkward), None);
    assert!(try_sanitize_and_store_filename("ok.txt").unwrap().ends_with("_ok.txt"));
}

#[test]
fn stored_names_start_with_a_uuid_fragment() {
    let n = sanitize_and_store_filename("report.pdf");
    let prefix: Vec<char> = n.chars().take(8).collect();
    assert!(prefix.iter().all(|c| c.is_ascii_digit() || ('a'..='f').contains(c)));
    assert_eq!(&n[8..], "_report.pdf");
}
