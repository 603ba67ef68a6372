use webview_bridge::ai::{
    default_ai_timeout, default_extract_timeout, default_login_timeout, default_max_scroll,
    default_model, default_provider, extract_json_from_response, try_extract_json, AiClient,
    GeminiClient, ImageAnalysisType, OllamaClient, SensitiveDataMasker,
};

#[test]
fn test_mask_credit_cards() {
    let text = "Card: 1234 5678 9012 3456";
    let masked = SensitiveDataMasker::mask_credit_cards(text);
    assert!(masked.contains("****"));
    assert!(masked.contains("1234"));
    assert!(!masked.contains("3456"));
}

#[test]
fn test_mask_credit_cards_no_spaces() {
    let text = "Card: 1234567890123456";
    let masked = SensitiveDataMasker::mask_credit_cards(text);
    assert!(masked.contains("****"));
}

#[test]
fn test_mask_credit_cards_multiple() {
    let text = "Card1: 1111 2222 3333 4444 Card2: 5555 6666 7777 8888";
    let masked = SensitiveDataMasker::mask_credit_cards(text);
    assert!(masked.contains("1111"));
    assert!(masked.contains("5555"));
    assert!(!masked.contains("4444"));
    assert!(!masked.contains("8888"));
}

#[test]
fn test_mask_emails() {
    let text = "Email: john.doe@example.com";
    let masked = SensitiveDataMasker::mask_emails(text);
    assert!(masked.contains("****"));
    assert!(masked.contains("jo"));
    assert!(masked.contains("@example.com"));
}

#[test]
fn test_mask_emails_short() {
    let text = "Email: ab@test.org";
    let masked = SensitiveDataMasker::mask_emails(text);
    assert!(masked.contains("ab"));
    assert!(masked.contains("@test.org"));
}

#[test]
fn test_mask_emails_multiple() {
    let text = "alice@example.com and bob.smith@company.co.jp";
    let masked = SensitiveDataMasker::mask_emails(text);
    assert!(masked.contains("al****@example.com"));
    assert!(masked.contains("bo****@company.co.jp"));
}

#[test]
fn test_mask_all_combined() {
    let text = "Email: user@example.com, Card: 1234 5678 9012 3456";
    let masked = SensitiveDataMasker::mask_all(text);
    assert!(masked.contains("****"));
    assert!(!masked.contains("3456"));
    assert!(!masked.contains("user@"));
}

#[test]
fn test_gemini_prompts() {
    let login_prompt = GeminiClient::generate_login_prompt("base64data");
    assert!(login_prompt.contains("login form"));

    let image_prompt = GeminiClient::generate_image_analysis_prompt(&ImageAnalysisType::ProductQuality, &[]);
    assert!(image_prompt.contains("product image"));
}

#[test]
fn test_gemini_prompt_composition() {
    let prompt = GeminiClient::generate_image_analysis_prompt(&ImageAnalysisType::Composition, &[]);
    assert!(prompt.contains("composition"));
    assert!(prompt.contains("Rule of thirds"));
}

#[test]
fn test_gemini_prompt_brand() {
    let prompt = GeminiClient::generate_image_analysis_prompt(&ImageAnalysisType::BrandConsistency, &[]);
    assert!(prompt.contains("brand"));
    assert!(prompt.contains("Logo"));
}

#[test]
fn test_gemini_prompt_custom() {
    let criteria = vec!["背景の清潔さ".to_string(), "商品の見栄え".to_string()];
    let prompt = GeminiClient::generate_image_analysis_prompt(&ImageAnalysisType::Custom, &criteria);
    assert!(prompt.contains("背景の清潔さ"));
    assert!(prompt.contains("商品の見栄え"));
}

#[test]
fn test_gemini_extract_prompt() {
    let prompt = GeminiClient::generate_extract_prompt("商品名と価格", None);
    assert!(prompt.contains("商品名と価格"));
    assert!(prompt.contains("JSON"));
}

#[test]
fn test_gemini_extract_prompt_with_schema() {
    let mut fields = serde_json::Map::new();
    fields.insert("name".to_string(), serde_json::Value::String("string".to_string()));
    fields.insert("price".to_string(), serde_json::Value::String("number".to_string()));
    let schema = serde_json::Value::Object(fields);
    let pretty = serde_json::to_string_pretty(&schema).unwrap();
    let prompt = GeminiClient::generate_extract_prompt("商品情報", Some(pretty.as_str()));
    assert!(prompt.contains("schema"));
    assert!(prompt.contains("name"));
}

#[test]
fn test_image_analysis_type_default() {
    let analysis_type = ImageAnalysisType::default();
    assert_eq!(analysis_type, ImageAnalysisType::ProductQuality);
}

#[test]
fn custom_prompt_lists_criteria_one_per_line() {
    let criteria = vec!["sharp".to_string(), "bright".to_string()];
    let prompt = GeminiClient::generate_image_analysis_prompt(&ImageAnalysisType::Custom, &criteria);
    assert!(prompt.contains("criteria:\n- sharp\n- bright\n"));
}

#[test]
fn extract_prompt_without_schema_has_no_hint() {
    let prompt = GeminiClient::generate_extract_prompt("prices", None);
    assert!(!prompt.contains("Expected output schema"));
    let prompt = GeminiClient::generate_extract_prompt("prices", Some("{}"));
    assert!(prompt.contains("\n\nExpected output schema:\n```json\n{}\n```"));
}

#[test]
fn mask_password_field_value() {
    let html = r#"<input type="password" value="hunter2">"#;
    let masked = SensitiveDataMasker::mask_password_fields(html);
    assert_eq!(masked, r#"<input type="password" value="********">"#);
}

#[test]
fn mask_all_matches_the_three_masks_in_turn() {
    let text = r#"<input type="password" value="pw"> 1234 5678 9012 3456 carol@example.org"#;
    let step = SensitiveDataMasker::mask_password_fields(text);
    let step = SensitiveDataMasker::mask_credit_cards(&step);
    let step = SensitiveDataMasker::mask_emails(&step);
    assert_eq!(SensitiveDataMasker::mask_all(text), step);
    assert_eq!(SensitiveDataMasker::try_mask_all(text), Some(step));
    assert!(SensitiveDataMasker::patterns_compile());
}

#[test]
fn normalize_host_cases() {
    assert_eq!(OllamaClient::normalize_host("0.0.0.0"), "http://127.0.0.1:11434");
    assert_eq!(OllamaClient::normalize_host("0.0.0.0:11434"), "http://127.0.0.1:11434");
    assert_eq!(OllamaClient::normalize_host(" http://0.0.0.0:11434/ "), "http://127.0.0.1:11434");
    assert_eq!(OllamaClient::normalize_host("localhost"), "http://localhost:11434");
    assert_eq!(OllamaClient::normalize_host("https://ollama.example.com//"), "https://ollama.example.com");
}

#[test]
fn ollama_base_url_from_host_setting() {
    let c = OllamaClient::with_host(None, "llava".to_string(), 5);
    assert_eq!(c.base_url, "http://localhost:11434");
    let c = OllamaClient::with_host(Some(""), "llava".to_string(), 5);
    assert_eq!(c.base_url, "http://localhost:11434");
    let c = OllamaClient::with_host(Some("0.0.0.0"), "llava".to_string(), 5);
    assert_eq!(c.base_url, "http://127.0.0.1:11434");
    assert_eq!(c.model, "llava");
    assert_eq!(c.timeout_ms, 5);
}

#[test]
fn provider_names() {
    let g = AiClient::Gemini(GeminiClient { api_key: "k".to_string(), model: "m".to_string(), timeout_ms: 1 });
    assert_eq!(g.provider_name(), "gemini");
    let o = AiClient::Ollama(OllamaClient::with_host(None, "m".to_string(), 1));
    assert_eq!(o.provider_name(), "ollama");
}

#[test]
fn json_in_fenced_block() {
    assert_eq!(extract_json_from_response("```json\n{\"a\": 1}\n```"), "{\"a\": 1}");
    assert_eq!(extract_json_from_response("  ```\n[1, 2]\n```  "), "[1, 2]");
}

#[test]
fn json_between_braces_or_brackets() {
    assert_eq!(extract_json_from_response("Here: {\"a\": {\"b\": 2}} done"), "{\"a\": {\"b\": 2}}");
    assert_eq!(extract_json_from_response("list [1, 2, 3] end"), "[1, 2, 3]");
    assert_eq!(extract_json_from_response("  no json here  "), "no json here");
}

#[test]
fn json_extraction_refuses_a_fence_without_body() {
    assert_eq!(try_extract_json("```json"), None);
    assert_eq!(try_extract_json("} x {"), None);
    assert_eq!(try_extract_json("{}"), Some("{}".to_string()));
}

#[test]
fn ai_defaults() {
    assert_eq!(default_provider(), "gemini");
    assert_eq!(default_model(), "gemini-2.0-flash");
    assert_eq!(default_ai_timeout(), 30000);
    assert_eq!(default_login_timeout(), 60000);
    assert_eq!(default_max_scroll(), 10);
    assert_eq!(default_extract_timeout(), 60000);
}

#[test]
fn normalized_host_is_a_fixed_point() {
    for raw in ["0.0.0.0", "localhost:11434/", "https://0.0.0.0:1/", "", "/", "h", "http://x"] {
        let h = OllamaClient::normalize_host(raw);
        assert!(h.starts_with("http://") || h.starts_with("https://"));
        assert!(!h.contains("://0.0.0.0"));
        assert!(!h.ends_with('/'));
        assert_eq!(OllamaClient::normalize_host(&h), h);
    }
}
