use webview_bridge::goal::{
    classify_error, default_initial_delay, default_max_delay, default_max_retries, default_multiplier,
    find_preset_flow, generate_goal_script, get_preset_flows, should_retry, ErrorCategory, FlowRegistry,
    GoalRequest, GoalType, ParamValue, PresetFlow, RetryConfig,
};

fn request(goal_type: GoalType, target: &str, params: Vec<(String, ParamValue)>) -> GoalRequest {
    GoalRequest {
        session: "test".to_string(),
        goal_type,
        target: target.to_string(),
        params,
        retry: RetryConfig::default(),
        timeout_ms: 5000,
        chain: None,
    }
}

#[test]
fn test_classify_error_transient() {
    assert_eq!(classify_error("timeout waiting for element"), ErrorCategory::Transient);
    assert_eq!(classify_error("Element not found: #btn"), ErrorCategory::Transient);
    assert_eq!(classify_error("Network error occurred"), ErrorCategory::Transient);
}

#[test]
fn test_classify_error_permanent() {
    assert_eq!(classify_error("Invalid selector syntax"), ErrorCategory::Permanent);
    assert_eq!(classify_error("Unauthorized access"), ErrorCategory::Permanent);
    assert_eq!(classify_error("Session closed"), ErrorCategory::Permanent);
}

#[test]
fn test_preset_flows() {
    let login = find_preset_flow("login");
    assert!(login.is_some());
    assert_eq!(login.unwrap().steps.len(), 4);

    let search = find_preset_flow("search");
    assert!(search.is_some());
}

#[test]
fn test_generate_click_script() {
    let req = request(GoalType::Click, "#submit-btn", vec![]);
    let script = generate_goal_script(&req);
    assert!(script.contains("#submit-btn"));
    assert!(script.contains(".click()"));
}

#[test]
fn test_flow_registry() {
    let mut registry = FlowRegistry::new();

    let custom = PresetFlow { name: "my_flow".to_string(), description: "Custom flow".to_string(), steps: vec![] };

    registry.register(custom);

    assert!(registry.get("my_flow").is_some());
    assert!(registry.get("login").is_some());
    assert!(registry.list().contains(&"my_flow".to_string()));
}

#[test]
fn unknown_errors_are_unknown() {
    assert_eq!(classify_error("something odd"), ErrorCategory::Unknown);
    assert_eq!(classify_error("Page not found"), ErrorCategory::Permanent);
}

#[test]
fn retry_follows_category_and_retry_list() {
    let mut config = RetryConfig::default();
    assert!(should_retry("Timeout after 5s", &config));
    assert!(!should_retry("Forbidden", &config));
    assert!(!should_retry("weird glitch", &config));
    config.retry_on = vec!["GLITCH".to_string()];
    assert!(should_retry("weird glitch", &config));
    assert!(!should_retry("Unauthorized glitch", &config));
}

#[test]
fn retry_defaults() {
    let config = RetryConfig::default();
    assert_eq!(config.max_retries, default_max_retries());
    assert_eq!(default_max_retries(), 3);
    assert_eq!(default_initial_delay(), 1000);
    assert_eq!(default_multiplier(), 2000);
    assert_eq!(default_max_delay(), 10000);
    assert_eq!(config.multiplier_thousandths, 2000);
}

#[test]
fn goal_scripts_escape_the_target() {
    let req = request(GoalType::Click, "a[title=\"x\"]", vec![]);
    let script = generate_goal_script(&req);
    assert!(script.contains("a[title=\\\"x\\\"]"));
}

#[test]
fn fill_script_uses_value_param() {
    let req = request(GoalType::Fill, "#q", vec![("value".to_string(), ParamValue::Str("rust".to_string()))]);
    let script = generate_goal_script(&req);
    assert!(script.contains("rust"));
    assert!(script.contains("#q"));
}

#[test]
fn preset_flow_names() {
    let flows = get_preset_flows();
    let names: Vec<&str> = flows.iter().map(|f| f.name.as_str()).collect();
    assert!(names.contains(&"login"));
    assert!(names.contains(&"search"));
    assert!(find_preset_flow("nope").is_none());
}

#[test]
fn registered_flow_comes_back_whole() {
    let mut registry = FlowRegistry::new();
    let mut retry = RetryConfig::default();
    retry.max_retries = 7;
    retry.retry_on = vec!["flaky".to_string()];
    let mut step = request(GoalType::Click, "#go", vec![("k".to_string(), ParamValue::UInt(3))]);
    step.session = "s9".to_string();
    step.retry = retry;
    step.chain = Some(vec![request(GoalType::Wait, "#done", vec![])]);
    registry.register(PresetFlow { name: "whole".to_string(), description: "d".to_string(), steps: vec![step] });
    let got = registry.get("whole").unwrap();
    assert_eq!(got.description, "d");
    let s = &got.steps[0];
    assert_eq!(s.session, "s9");
    assert_eq!(s.retry.max_retries, 7);
    assert_eq!(s.retry.retry_on, vec!["flaky".to_string()]);
    let chain = s.chain.as_ref().unwrap();
    assert_eq!(chain.len(), 1);
    assert_eq!(chain[0].target, "#done");
}
