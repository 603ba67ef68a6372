use webview_bridge::wait::{
    default_extract_attr, default_stable_ms, default_timeout, generate_wait_script, ExtractOptions,
    SelectorWithCondition, WaitCondition, WaitRequest,
};

fn request(selector: &str, condition: WaitCondition) -> WaitRequest {
    WaitRequest {
        session: "test".to_string(),
        selector: selector.to_string(),
        condition,
        timeout_ms: 5000,
        text: None,
        attribute: None,
        value: None,
        stable_ms: 500,
        extract: None,
        selectors: None,
        wait_all: false,
        frame: None,
    }
}

#[test]
fn test_wait_condition_default() {
    assert_eq!(WaitCondition::default(), WaitCondition::Present);
}

#[test]
fn test_wait_condition_equality() {
    assert_eq!(WaitCondition::Visible, WaitCondition::Visible);
    assert_ne!(WaitCondition::Visible, WaitCondition::Present);
}

#[test]
fn test_generate_wait_script() {
    let req = request("#submit", WaitCondition::Visible);
    let script = generate_wait_script(&req);
    assert!(script.contains("visible"));
    assert!(script.contains("#submit"));
    assert!(script.contains("5000"));
}

#[test]
fn test_generate_wait_script_text_contains() {
    let mut req = request(".message", WaitCondition::TextContains);
    req.timeout_ms = 10000;
    req.text = Some("Success".to_string());
    let script = generate_wait_script(&req);
    assert!(script.contains("text_contains"));
    assert!(script.contains("Success"));
}

#[test]
fn test_generate_wait_script_attribute_equals() {
    let mut req = request("#input", WaitCondition::AttributeEquals);
    req.attribute = Some("disabled".to_string());
    req.value = Some("true".to_string());
    let script = generate_wait_script(&req);
    assert!(script.contains("attribute_equals"));
    assert!(script.contains("disabled"));
    assert!(script.contains("true"));
}

#[test]
fn test_generate_wait_script_with_extract() {
    let mut req = request(".result", WaitCondition::Present);
    req.extract = Some(ExtractOptions { attribute: "innerHTML".to_string(), all: true });
    let script = generate_wait_script(&req);
    assert!(script.contains("innerHTML"));
    assert!(script.contains("true"));
}

#[test]
fn test_generate_wait_script_multiple_selectors() {
    let mut req = request("", WaitCondition::Present);
    req.selectors = Some(vec!["#a".to_string(), "#b".to_string(), "#c".to_string()]);
    req.wait_all = true;
    let script = generate_wait_script(&req);
    assert!(script.contains("#a"));
    assert!(script.contains("#b"));
    assert!(script.contains("#c"));
    assert!(script.contains("waitAll: true"));
}

#[test]
fn test_generate_wait_script_stable() {
    let mut req = request(".dynamic-content", WaitCondition::Stable);
    req.timeout_ms = 10000;
    req.stable_ms = 2000;
    let script = generate_wait_script(&req);
    assert!(script.contains("stable"));
    assert!(script.contains("2000"));
}

#[test]
fn test_generate_wait_script_all_conditions() {
    let conditions = vec![
        WaitCondition::Present,
        WaitCondition::Visible,
        WaitCondition::Stable,
        WaitCondition::TextContains,
        WaitCondition::TextMatches,
        WaitCondition::AttributeEquals,
        WaitCondition::Clickable,
        WaitCondition::Detached,
        WaitCondition::NavigationComplete,
        WaitCondition::NetworkIdle,
    ];
    for condition in conditions {
        let mut req = request("#el", condition);
        req.text = Some("text".to_string());
        req.attribute = Some("attr".to_string());
        req.value = Some("val".to_string());
        let script = generate_wait_script(&req);
        assert!(!script.is_empty());
    }
}

#[test]
fn wait_v2_test_default_functions() {
    assert_eq!(default_timeout(), 30000);
    assert_eq!(default_stable_ms(), 500);
    assert_eq!(default_extract_attr(), "text");
}

#[test]
fn test_selector_with_condition() {
    let swc = SelectorWithCondition {
        selector: "#test".to_string(),
        condition: WaitCondition::Clickable,
        extract: Some(ExtractOptions { attribute: "value".to_string(), all: false }),
    };
    assert_eq!(swc.condition, WaitCondition::Clickable);
    assert!(swc.extract.is_some());
}

#[test]
fn wait_script_escapes_selector_quotes() {
    let req = request(r#"input[name="q"]"#, WaitCondition::Present);
    let script = generate_wait_script(&req);
    assert!(script.contains(r#"input[name=\"q\"]"#));
}

#[test]
fn wait_script_without_text_uses_null() {
    let req = request("#x", WaitCondition::TextContains);
    let script = generate_wait_script(&req);
    assert!(script.contains("null"));
}
