use webview_bridge::goal::ParamValue;
use webview_bridge::mcp_tools::{
    browse_reply, classify_method, click_reply, decode_screenshot, endpoint, extract_texts_script, get_resources, get_tools,
    list_tools, method_not_found_message, navigated_reply, parse_error_message, plan_http_tool,
    plan_stdio_resource, plan_stdio_tool, screenshot_file_name, screenshot_saved_reply, screenshot_uri,
    tool_session, type_reply, wait_reply, HttpToolAction, RpcMethod, StdioResource, StdioToolAction,
};

fn s(k: &str, v: &str) -> (String, ParamValue) {
    (k.to_string(), ParamValue::Str(v.to_string()))
}

#[test]
fn methods() {
    assert_eq!(classify_method("initialize"), RpcMethod::Initialize);
    assert_eq!(classify_method("notifications/initialized"), RpcMethod::Initialized);
    assert_eq!(classify_method("tools/call"), RpcMethod::ToolsCall);
    assert_eq!(classify_method("resources/read"), RpcMethod::ResourcesRead);
    assert_eq!(classify_method("ping"), RpcMethod::Ping);
    assert_eq!(classify_method("bogus"), RpcMethod::Unknown);
    assert_eq!(method_not_found_message("bogus"), "Method not found: bogus");
    assert_eq!(parse_error_message("eof"), "Parse error: eof");
    assert_eq!(endpoint("/navigate"), "http://127.0.0.1:9400/navigate");
}

#[test]
fn catalogues_parse_as_json() {
    let tools: serde_json::Value = serde_json::from_str(&get_tools()).unwrap();
    let names: Vec<&str> = tools.as_array().unwrap().iter().map(|t| t["name"].as_str().unwrap()).collect();
    assert_eq!(names.len(), 10);
    assert!(names.contains(&"youtube_subtitles"));
    assert_eq!(tools[0]["inputSchema"]["required"][0], "url");
    let http = list_tools();
    assert_eq!(http.len(), 7);
    for t in &http {
        let schema: serde_json::Value = serde_json::from_str(&t.input_schema).unwrap();
        assert_eq!(schema["type"], "object");
    }
    let res = get_resources();
    assert_eq!(res.len(), 4);
    assert_eq!(res[2].uri, "browser://screenshots/list");
}

#[test]
fn stdio_tool_plans() {
    match plan_stdio_tool("browse", &vec![s("url", "https://a.b")]).unwrap() {
        StdioToolAction::Browse { url } => assert_eq!(url, "https://a.b"),
        other => panic!("unexpected {:?}", other),
    }
    assert_eq!(plan_stdio_tool("browse", &vec![]).unwrap_err(), "Missing 'url'");
    assert_eq!(plan_stdio_tool("type_text", &vec![s("selector", "#q")]).unwrap_err(), "Missing 'text'");
    assert_eq!(plan_stdio_tool("fly", &vec![]).unwrap_err(), "Unknown tool: fly");
    match plan_stdio_tool("screenshot", &vec![("load_lazy_images".to_string(), ParamValue::Bool(true))]).unwrap() {
        StdioToolAction::Screenshot { lazy_images, save_to_file } => {
            assert!(save_to_file);
            let (script, timeout) = lazy_images.unwrap();
            assert!(script.contains("10000"));
            assert_eq!(timeout, 15000);
        },
        other => panic!("unexpected {:?}", other),
    }
    match plan_stdio_tool("youtube_subtitles", &vec![s("url", "u")]).unwrap() {
        StdioToolAction::YoutubeSubtitles { language, format, auto_generated, .. } => {
            assert_eq!(language, "ja");
            assert_eq!(format, "text");
            assert!(auto_generated);
        },
        other => panic!("unexpected {:?}", other),
    }
    match plan_stdio_tool("collect_images", &vec![("max_images".to_string(), ParamValue::UInt(7))]).unwrap() {
        StdioToolAction::CollectImages { selector, max_images, min_width, download, .. } => {
            assert_eq!(selector, "body");
            assert_eq!(max_images, 7);
            assert_eq!(min_width, 0);
            assert!(!download);
        },
        other => panic!("unexpected {:?}", other),
    }
    match plan_stdio_tool("extract", &vec![s("selector", "a[href=\"x\"]")]).unwrap() {
        StdioToolAction::Extract { script } => {
            assert!(script.contains("document.querySelectorAll(\"a[href=\\\"x\\\"]\")"));
        },
        other => panic!("unexpected {:?}", other),
    }
}

#[test]
fn session_argument_overrides_current() {
    assert_eq!(tool_session(&vec![s("session", "work")], "default"), "work");
    assert_eq!(tool_session(&vec![], "default"), "default");
}

#[test]
fn http_tool_plans() {
    match plan_http_tool("wait", &vec![s("selector", "#x")]).unwrap() {
        HttpToolAction::Wait { selector, timeout_ms } => {
            assert_eq!(selector, "#x");
            assert_eq!(timeout_ms, 10000);
        },
        other => panic!("unexpected {:?}", other),
    }
    assert_eq!(plan_http_tool("browse", &vec![]).unwrap_err(), "Missing url");
    assert_eq!(plan_http_tool("execute", &vec![]).unwrap_err(), "Missing script");
    assert_eq!(plan_http_tool("click", &vec![]).unwrap_err(), "Unknown tool: click");
    assert!(matches!(plan_http_tool("get_html", &vec![]).unwrap(), HttpToolAction::GetHtml));
}

#[test]
fn resources() {
    assert_eq!(plan_stdio_resource("browser://current/text").unwrap(), StdioResource::CurrentText);
    assert_eq!(plan_stdio_resource("browser://screenshots/list").unwrap(), StdioResource::ScreenshotList);
    assert_eq!(
        plan_stdio_resource("browser://screenshots/a_1.png").unwrap(),
        StdioResource::SavedScreenshot { file_name: "a_1.png".to_string() }
    );
    assert_eq!(plan_stdio_resource("browser://screenshots/../x").unwrap_err(), "Invalid filename");
    assert_eq!(plan_stdio_resource("browser://screenshots/").unwrap_err(), "Invalid filename");
    assert_eq!(plan_stdio_resource("browser://nope").unwrap_err(), "Unknown resource: browser://nope");
    assert_eq!(screenshot_uri("f.png"), "browser://screenshots/f.png");
}

#[test]
fn replies() {
    assert_eq!(browse_reply("https://x", "120"), "Navigated to: https://x (120ms)");
    assert_eq!(screenshot_file_name("main", 17), "main_17.png");
    assert_eq!(
        screenshot_saved_reply("main_17.png", 4096),
        "Screenshot saved: main_17.png (4KB). Use download_file tool to retrieve."
    );
    assert_eq!(click_reply(false), "click failed");
    assert_eq!(type_reply(true), "typed");
    assert_eq!(navigated_reply("u"), "Navigated to u");
    assert_eq!(wait_reply("#a", false), "Element '#a' not found");
    assert!(extract_texts_script("p").contains("textContent.trim()"));
}

#[test]
fn screenshot_base64_is_decoded() {
    assert_eq!(decode_screenshot("aGk=").unwrap(), b"hi".to_vec());
    assert!(decode_screenshot("!!").unwrap_err().starts_with("Failed to decode base64: "));
}
