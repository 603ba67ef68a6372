use webview_bridge::macros::{
    find_preset_macro, generate_all_helpers, generate_macro_script, generate_spa_detection_script,
    get_preset_macros, MacroDefinition, MacroRegistry,
};

fn custom(name: &str) -> MacroDefinition {
    MacroDefinition {
        name: name.to_string(),
        description: "Custom macro".to_string(),
        script: "console.log('hello')".to_string(),
        required_params: vec![],
        optional_params: vec![],
        timeout_ms: 5000,
        builtin: false,
    }
}

#[test]
fn test_spa_detection() {
    let script = generate_spa_detection_script();
    assert!(script.contains("React"));
    assert!(script.contains("Vue"));
    assert!(script.contains("Angular"));
}

#[test]
fn test_preset_macros() {
    let macros = get_preset_macros();
    assert_eq!(macros.len(), 4);

    let extract = find_preset_macro("extract_list");
    assert!(extract.is_some());
    assert!(extract.unwrap().builtin);
}

#[test]
fn test_macro_registry() {
    let mut registry = MacroRegistry::new();

    registry.register(custom("my_macro")).unwrap();

    assert!(registry.get("my_macro").is_some());
    assert!(registry.get("extract_list").is_some());

    registry.delete("my_macro").unwrap();
    assert!(registry.get("my_macro").is_none());
}

#[test]
fn test_generate_macro_script() {
    let macro_def = find_preset_macro("extract_list").unwrap();
    let params = vec![("selector".to_string(), "\".item\"".to_string())];

    let script = generate_macro_script(&macro_def, &params);
    assert!(script.contains("__wbp2_waitFor"));
    assert!(script.contains(".item"));
}

#[test]
fn builtin_macros_cannot_be_overwritten_or_deleted() {
    let mut registry = MacroRegistry::new();
    let mut fake = custom("extract_list");
    fake.builtin = true;
    registry.register(fake).unwrap();
    let err = registry.register(custom("extract_list")).unwrap_err();
    assert_eq!(err, "Cannot overwrite builtin macro: extract_list");
    let err = registry.delete("extract_list").unwrap_err();
    assert_eq!(err, "Cannot delete builtin macro: extract_list");
    assert!(registry.get("extract_list").is_some());
}

#[test]
fn empty_macro_name_is_refused() {
    let mut registry = MacroRegistry::new();
    assert_eq!(registry.register(custom("")).unwrap_err(), "Macro name cannot be empty");
}

#[test]
fn registered_macros_are_listed_sorted_with_presets() {
    let mut registry = MacroRegistry::new();
    registry.register(custom("zeta")).unwrap();
    registry.register(custom("alpha")).unwrap();
    let names: Vec<String> = registry.list().into_iter().map(|m| m.name).collect();
    let mut sorted = names.clone();
    sorted.sort();
    assert_eq!(names, sorted);
    assert!(names.contains(&"alpha".to_string()));
    assert!(names.contains(&"extract_list".to_string()));
    assert_eq!(names.len(), 6);
}

#[test]
fn macro_script_wraps_helpers_script_and_params() {
    let def = custom("m");
    let script = generate_macro_script(&def, &vec![]);
    assert_eq!(script, format!("{}\n(console.log('hello'))({{}});", generate_all_helpers()));
}
