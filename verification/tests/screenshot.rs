use webview_bridge::screenshot::{
    default_quality, default_scale, default_timeout, default_true, find_device_preset,
    generate_element_screenshot_script, generate_full_page_dimensions_script, generate_hide_elements_script,
    generate_restore_elements_script, generate_scroll_to_script, generate_viewport_meta_script,
    generate_wait_for_images_script, get_device_presets, CaptureMode, ImageFormat,
};

#[test]
fn test_capture_mode_default() {
    assert_eq!(CaptureMode::default(), CaptureMode::Viewport);
}

#[test]
fn test_capture_mode_equality() {
    assert_eq!(CaptureMode::FullPage, CaptureMode::FullPage);
    assert_ne!(CaptureMode::Viewport, CaptureMode::Element);
}

#[test]
fn test_image_format_default() {
    assert_eq!(ImageFormat::default(), ImageFormat::Png);
}

#[test]
fn test_image_format_mime_type() {
    assert_eq!(ImageFormat::Png.mime_type(), "image/png");
    assert_eq!(ImageFormat::Jpeg.mime_type(), "image/jpeg");
    assert_eq!(ImageFormat::Webp.mime_type(), "image/webp");
}

#[test]
fn test_image_format_extension() {
    assert_eq!(ImageFormat::Png.extension(), "png");
    assert_eq!(ImageFormat::Jpeg.extension(), "jpg");
    assert_eq!(ImageFormat::Webp.extension(), "webp");
}

#[test]
fn test_find_device_preset() {
    let preset = find_device_preset("iphone_14");
    assert!(preset.is_some());
    let preset = preset.unwrap();
    assert_eq!(preset.viewport.width, 390);
    assert!(preset.viewport.is_mobile);
}

#[test]
fn test_device_preset_case_insensitive() {
    let preset = find_device_preset("IPHONE_14");
    assert!(preset.is_some());
}

#[test]
fn test_find_device_preset_not_found() {
    let preset = find_device_preset("nonexistent_device");
    assert!(preset.is_none());
}

#[test]
fn test_all_device_presets() {
    let presets = get_device_presets();
    assert!(presets.len() >= 8);

    for preset in &presets {
        assert!(find_device_preset(&preset.name).is_some());
    }
}

#[test]
fn test_desktop_presets() {
    let desktop = find_device_preset("desktop_1080p").unwrap();
    assert!(!desktop.viewport.is_mobile);
    assert!(!desktop.viewport.has_touch);
    assert_eq!(desktop.viewport.width, 1920);
    assert_eq!(desktop.viewport.height, 1080);
}

#[test]
fn test_tablet_presets() {
    let ipad = find_device_preset("ipad_pro_12").unwrap();
    assert!(ipad.viewport.is_mobile);
    assert!(ipad.viewport.has_touch);
    assert!(ipad.viewport.width > 1000);
}

#[test]
fn test_generate_element_screenshot_script() {
    let script = generate_element_screenshot_script("#main", 10);
    assert!(script.contains("#main"));
    assert!(script.contains("getBoundingClientRect"));
    assert!(script.contains("padding"));
}

#[test]
fn test_generate_element_screenshot_script_escapes_quotes() {
    let script = generate_element_screenshot_script(r#".class[data-id="test"]"#, 0);
    assert!(script.contains("data-id"));
}

#[test]
fn test_generate_full_page_dimensions_script() {
    let script = generate_full_page_dimensions_script();
    assert!(script.contains("scrollHeight"));
    assert!(script.contains("offsetHeight"));
    assert!(script.contains("clientHeight"));
}

#[test]
fn test_generate_wait_for_images_script() {
    let script = generate_wait_for_images_script(5000);
    assert!(script.contains("5000"));
    assert!(script.contains("document.images"));
    assert!(script.contains("complete"));
}

#[test]
fn test_generate_scroll_to_script() {
    let script = generate_scroll_to_script(100, 500);
    assert!(script.contains("100"));
    assert!(script.contains("500"));
    assert!(script.contains("scrollTo"));
}

#[test]
fn test_generate_hide_elements_script() {
    let selectors = vec![".ad".to_string(), "#banner".to_string()];
    let script = generate_hide_elements_script(&selectors);
    assert!(script.contains(".ad"));
    assert!(script.contains("#banner"));
    assert!(script.contains("visibility"));
}

#[test]
fn test_generate_restore_elements_script() {
    let selectors = vec![".ad".to_string()];
    let script = generate_restore_elements_script(&selectors);
    assert!(script.contains(".ad"));
    assert!(script.contains("removeProperty"));
}

#[test]
fn test_generate_viewport_meta_script() {
    let script = generate_viewport_meta_script(375, 667);
    assert!(script.contains("375"));
    assert!(script.contains("667"));
    assert!(script.contains("viewport"));
}

#[test]
fn screenshot_v2_test_default_functions() {
    assert_eq!(default_quality(), 90);
    assert!(default_true());
    assert_eq!(default_timeout(), 30000);
    assert_eq!(default_scale(), 1000);
}

#[test]
fn element_script_escapes_double_quotes() {
    let script = generate_element_screenshot_script(r#"a[title="x"]"#, 0);
    assert!(script.contains(r#"a[title=\"x\"]"#));
    assert!(!script.contains(r#"a[title="x"]"#));
}

#[test]
fn negative_scroll_offsets() {
    let script = generate_scroll_to_script(-20, 0);
    assert!(script.contains("-20"));
}

#[test]
fn preset_names_are_unique() {
    let presets = get_device_presets();
    let mut names: Vec<&str> = presets.iter().map(|p| p.name.as_str()).collect();
    let before = names.len();
    names.sort();
    names.dedup();
    assert_eq!(names.len(), before);
}
