//! Requests and replies of the AI-assisted features (login assistance, image
//! analysis, page extraction), the prompts sent to the model, the masking of
//! sensitive data before anything leaves the machine, and the recovery of the
//! JSON part of a model's answer.

use vstd::prelude::*;

use crate::strops::{
    is_whitespace, find_first, find_last, find_last_seq, joined, position_first, position_last,
    position_last_seq, replaced, replace_str, slice_chars, trim_end_char, trim_end_char_str,
    trim_str, trimmed,
};
use crate::text::{
    chars_of, contains_seq, occurs_at, owned, push_str, starts_with_seq, str_contains_char,
    str_starts_with, views,
};

verus! {

// ---------------------------------------------------------------------------
// Defaults
// ---------------------------------------------------------------------------

/// The AI provider used when none is configured.
pub fn default_provider() -> (r: String)
    ensures
        r@ == "gemini"@,
{
    owned("gemini")
}

/// The model used when none is configured.
pub fn default_model() -> (r: String)
    ensures
        r@ == "gemini-2.0-flash"@,
{
    owned("gemini-2.0-flash")
}

/// AI features are enabled unless configured otherwise.
pub fn default_true() -> (r: bool)
    ensures
        r,
{
    true
}

/// Timeout of one AI request in milliseconds.
pub fn default_ai_timeout() -> (r: u64)
    ensures
        r == 30000,
{
    30000
}

/// Timeout of an AI-assisted login in milliseconds.
pub fn default_login_timeout() -> (r: u64)
    ensures
        r == 60000,
{
    60000
}

/// Scroll iterations of an AI extraction unless configured otherwise.
pub fn default_max_scroll() -> (r: u32)
    ensures
        r == 10,
{
    10
}

/// Timeout of an AI extraction in milliseconds.
pub fn default_extract_timeout() -> (r: u64)
    ensures
        r == 60000,
{
    60000
}

// ---------------------------------------------------------------------------
// AI-assisted login
// ---------------------------------------------------------------------------

/// Request for an AI-assisted login.
#[derive(Debug, Clone)]
pub struct AiLoginRequest {
    pub session: String,
    pub credentials: LoginCredentials,
    /// Target URL; the current page when absent.
    pub url: Option<String>,
    pub wait_for_success: bool,
    pub timeout_ms: u64,
}

/// Credentials for a login; the password is never echoed back.
#[derive(Debug, Clone)]
pub struct LoginCredentials {
    pub username: String,
    pub password: String,
    pub two_factor: Option<TwoFactorConfig>,
}

/// Where a second-factor code comes from.
#[derive(Debug, Clone)]
pub struct TwoFactorConfig {
    /// A fixed code (for testing).
    pub code: Option<String>,
    /// A webhook that supplies the code.
    pub webhook: Option<String>,
    /// How long to wait for a code typed by the user.
    pub wait_timeout_ms: Option<u64>,
}

/// Reply to an AI-assisted login.
#[derive(Debug, Clone)]
pub struct AiLoginResponse {
    pub success: bool,
    pub status: LoginStatus,
    pub message: Option<String>,
    pub detected_elements: Option<DetectedElements>,
    pub elapsed_ms: u64,
}

/// Where an AI-assisted login stands.
#[derive(Debug, Clone, Copy, PartialEq, Eq, Structural)]
pub enum LoginStatus {
    Success,
    InProgress,
    CaptchaDetected,
    TwoFactorRequired,
    Failed,
    FormNotFound,
    Timeout,
}

/// The login-form elements found on a page.
#[derive(Debug, Clone)]
pub struct DetectedElements {
    pub username_field: Option<String>,
    pub password_field: Option<String>,
    pub submit_button: Option<String>,
    pub captcha_present: bool,
    pub two_factor_field: Option<String>,
}

// ---------------------------------------------------------------------------
// Image analysis
// ---------------------------------------------------------------------------

/// Request for the analysis of one or more images.
#[derive(Debug, Clone)]
pub struct AiImageAnalyzeRequest {
    pub images: Vec<ImageInput>,
    pub analysis_type: ImageAnalysisType,
    pub custom_criteria: Vec<String>,
    pub competitor_images: Vec<String>,
}

/// An image given by URL or inline as base64 data.
#[derive(Debug, Clone)]
pub enum ImageInput {
    Url(String),
    Base64 { base64: String, mime_type: String },
}

/// What an image is judged on.
#[derive(Debug, Clone, Copy, PartialEq, Eq, Structural)]
pub enum ImageAnalysisType {
    ProductQuality,
    Composition,
    BrandConsistency,
    Custom,
}

impl Default for ImageAnalysisType {
    /// Product quality is the analysis performed unless another is asked for.
    fn default() -> (r: Self)
        ensures
            r == ImageAnalysisType::ProductQuality,
    {
        ImageAnalysisType::ProductQuality
    }
}

/// How an image compares with those of competitors.
#[derive(Debug, Clone)]
pub struct CompetitorComparison {
    pub summary: String,
    pub strengths: Vec<String>,
    pub weaknesses: Vec<String>,
    pub recommendations: Vec<String>,
}

// ---------------------------------------------------------------------------
// Page extraction
// ---------------------------------------------------------------------------

/// Request for an AI extraction from the page of a session.
#[derive(Debug, Clone)]
pub struct AiExtractRequest {
    pub session: String,
    /// What to extract, in natural language.
    pub description: String,
    /// The expected output schema, as JSON text.
    pub schema: Option<String>,
    pub auto_scroll: bool,
    pub max_scroll: u32,
    pub timeout_ms: u64,
}

/// Reply to an AI extraction.
#[derive(Debug, Clone)]
pub struct AiExtractResponse {
    pub success: bool,
    /// The extracted data, as JSON text.
    pub data: String,
    pub item_count: usize,
    pub pages_processed: u32,
    pub elapsed_ms: u64,
}

// ---------------------------------------------------------------------------
// Masking of sensitive data
// ---------------------------------------------------------------------------

/// Whether `pattern` is a regular expression that the `regex` crate accepts
/// (`Regex::new` returns `Ok`).
pub uninterp spec fn regex_compiles(pattern: Seq<char>) -> bool;

/// What `Regex::replace_all` gives for the compiled `pattern`, the text and
/// the replacement template (with `$1`/`${1}` group references expanded).
pub uninterp spec fn regex_replaced(pattern: Seq<char>, text: Seq<char>, replacement: Seq<char>) -> Seq<char>;

/// `regex::Regex::new`, asked only whether the pattern compiles; the answer
/// is named `regex_compiles`.
#[verifier::external_body]
fn regex_is_valid(pattern: &str) -> (b: bool)
    ensures
        b == regex_compiles(pattern@),
{
    regex::Regex::new(pattern).is_ok()
}

/// `regex::Regex::replace_all` on a pattern that compiles; its result is
/// named `regex_replaced`.
#[verifier::external_body]
fn regex_replace_all(pattern: &str, text: &str, replacement: &str) -> (r: String)
    requires
        regex_compiles(pattern@),
    ensures
        r@ == regex_replaced(pattern@, text@, replacement@),
{
    match regex::Regex::new(pattern) {
        Ok(re) => re.replace_all(text, replacement).into_owned(),
        Err(_) => String::new(),
    }
}

/// Matches the value of a password input field in HTML.
pub const PASSWORD_FIELD_PATTERN: &'static str = "(<input[^>]*type\\s*=\\s*[\"']password[\"'][^>]*value\\s*=\\s*[\"'])[^\"']*[\"']";

/// Keeps the opening of a password field and hides its value.
pub const PASSWORD_FIELD_REPLACEMENT: &'static str = "${1}********\"";

/// Matches a 16-digit card number, optionally split into groups of four.
pub const CARD_NUMBER_PATTERN: &'static str = "\\b(\\d{4})\\s?(\\d{4})\\s?(\\d{4})\\s?(\\d{4})\\b";

/// Keeps the first group of four digits of a card number.
pub const CARD_NUMBER_REPLACEMENT: &'static str = "$1 **** **** ****";

/// Matches an e-mail address, capturing its first two characters and its domain.
pub const EMAIL_PATTERN: &'static str = "\\b([a-zA-Z0-9._%+-]{2})[a-zA-Z0-9._%+-]*@([a-zA-Z0-9.-]+\\.[a-zA-Z]{2,})\\b";

/// Keeps the first two characters and the domain of an e-mail address.
pub const EMAIL_REPLACEMENT: &'static str = "$1****@$2";

/// The prompt that asks the model to locate a login form on a screenshot.
pub const LOGIN_PROMPT: &'static str = "
Analyze this webpage screenshot and identify login form elements.
Return JSON with the following structure:
{
    \"has_login_form\": boolean,
    \"username_selector\": \"CSS selector or null\",
    \"password_selector\": \"CSS selector or null\",
    \"submit_selector\": \"CSS selector or null\",
    \"captcha_present\": boolean,
    \"two_factor_visible\": boolean,
    \"login_status\": \"logged_out\" | \"logged_in\" | \"unknown\"
}

Only return the JSON, no other text.
";
/// The prompt for judging a product image for e-commerce use.
pub const PRODUCT_QUALITY_PROMPT: &'static str = "
Analyze this product image for e-commerce quality. Evaluate:
- Image clarity and resolution
- Lighting and shadows
- Background cleanliness
- Product visibility and framing
- Color accuracy

Return ONLY valid JSON (no markdown) with this structure:
{
    \"scores\": {\"clarity\": 0-100, \"lighting\": 0-100, \"background\": 0-100, \"framing\": 0-100, \"color\": 0-100},
    \"overall_score\": 0-100,
    \"issues\": [\"issue1\", \"issue2\"],
    \"improvements\": [\"improvement1\", \"improvement2\"]
}
";
/// The prompt for judging the visual composition of an image.
pub const COMPOSITION_PROMPT: &'static str = "
Analyze the visual composition of this image:
- Rule of thirds adherence
- Visual balance
- Focal point clarity
- Color harmony
- Negative space usage

Return ONLY valid JSON (no markdown) with this structure:
{
    \"scores\": {\"thirds\": 0-100, \"balance\": 0-100, \"focal_point\": 0-100, \"color_harmony\": 0-100, \"negative_space\": 0-100},
    \"overall_score\": 0-100,
    \"issues\": [\"issue1\"],
    \"improvements\": [\"improvement1\"]
}
";
/// The prompt for judging the brand consistency of an image.
pub const BRAND_CONSISTENCY_PROMPT: &'static str = "
Analyze this image for brand consistency:
- Color palette adherence
- Typography consistency
- Visual style matching
- Logo placement and visibility
- Overall brand alignment

Return ONLY valid JSON (no markdown) with this structure:
{
    \"scores\": {\"color_palette\": 0-100, \"typography\": 0-100, \"visual_style\": 0-100, \"logo\": 0-100, \"alignment\": 0-100},
    \"overall_score\": 0-100,
    \"issues\": [\"issue1\"],
    \"improvements\": [\"improvement1\"]
}
";
/// The text before the custom criteria in a custom-analysis prompt.
pub const CUSTOM_PROMPT_HEAD: &'static str = "
Analyze this image based on the following custom criteria:
- ";
/// The text after the custom criteria in a custom-analysis prompt.
pub const CUSTOM_PROMPT_TAIL: &'static str = "

Return ONLY valid JSON (no markdown) with this structure:
{
    \"scores\": {\"criterion1\": 0-100, \"criterion2\": 0-100},
    \"overall_score\": 0-100,
    \"issues\": [\"issue1\"],
    \"improvements\": [\"improvement1\"]
}
";
/// The text before the description in an extraction prompt.
pub const EXTRACT_PROMPT_HEAD: &'static str = "
Analyze this webpage screenshot and extract the following information:
";
/// The text between the description and the schema hint in an extraction prompt.
pub const EXTRACT_PROMPT_MIDDLE: &'static str = "
";
/// The text after the schema hint in an extraction prompt.
pub const EXTRACT_PROMPT_TAIL: &'static str = "

Return ONLY the extracted data as valid JSON. If multiple items are found, return an array.
No markdown formatting, no explanation, just the JSON.
";
/// The text before the schema in the schema hint of an extraction prompt.
pub const SCHEMA_HINT_HEAD: &'static str = "

Expected output schema:
```json
";
/// The text after the schema in the schema hint of an extraction prompt.
pub const SCHEMA_HINT_TAIL: &'static str = "
```";

/// The patterns of all three masks compile.
pub open spec fn masker_patterns_compile() -> bool {
    &&& regex_compiles(PASSWORD_FIELD_PATTERN@)
    &&& regex_compiles(CARD_NUMBER_PATTERN@)
    &&& regex_compiles(EMAIL_PATTERN@)
}

/// `html` with the values of its password fields replaced by asterisks.
pub open spec fn masked_password_fields(html: Seq<char>) -> Seq<char> {
    regex_replaced(PASSWORD_FIELD_PATTERN@, html, PASSWORD_FIELD_REPLACEMENT@)
}

/// `text` with the last twelve digits of each card number hidden.
pub open spec fn masked_credit_cards(text: Seq<char>) -> Seq<char> {
    regex_replaced(CARD_NUMBER_PATTERN@, text, CARD_NUMBER_REPLACEMENT@)
}

/// `text` with each e-mail address reduced to its first two characters and
/// its domain.
pub open spec fn masked_emails(text: Seq<char>) -> Seq<char> {
    regex_replaced(EMAIL_PATTERN@, text, EMAIL_REPLACEMENT@)
}

/// All three masks, applied in the order password fields, card numbers,
/// e-mail addresses.
pub open spec fn masked_all(text: Seq<char>) -> Seq<char> {
    masked_emails(masked_credit_cards(masked_password_fields(text)))
}

/// Hides sensitive data (passwords, card numbers, e-mail addresses) in text
/// that is about to be sent to a model.
pub struct SensitiveDataMasker;

impl SensitiveDataMasker {
    /// Replaces the value of every password input field in `html`.
    pub fn mask_password_fields(html: &str) -> (r: String)
        requires
            regex_compiles(PASSWORD_FIELD_PATTERN@),
        ensures
            r@ == masked_password_fields(html@),
    {
        regex_replace_all(PASSWORD_FIELD_PATTERN, html, PASSWORD_FIELD_REPLACEMENT)
    }

    /// Keeps only the first four digits of every card number in `text`.
    pub fn mask_credit_cards(text: &str) -> (r: String)
        requires
            regex_compiles(CARD_NUMBER_PATTERN@),
        ensures
            r@ == masked_credit_cards(text@),
    {
        regex_replace_all(CARD_NUMBER_PATTERN, text, CARD_NUMBER_REPLACEMENT)
    }

    /// Keeps only the first two characters and the domain of every e-mail
    /// address in `text`.
    pub fn mask_emails(text: &str) -> (r: String)
        requires
            regex_compiles(EMAIL_PATTERN@),
        ensures
            r@ == masked_emails(text@),
    {
        regex_replace_all(EMAIL_PATTERN, text, EMAIL_REPLACEMENT)
    }

    /// Applies the password, card and e-mail masks in turn.
    pub fn mask_all(text: &str) -> (r: String)
        requires
            masker_patterns_compile(),
        ensures
            r@ == masked_all(text@),
    {
        let a = Self::mask_password_fields(text);
        let b = Self::mask_credit_cards(a.as_str());
        Self::mask_emails(b.as_str())
    }

    /// Whether the patterns of the three masks compile.
    pub fn patterns_compile() -> (b: bool)
        ensures
            b == masker_patterns_compile(),
    {
        regex_is_valid(PASSWORD_FIELD_PATTERN) && regex_is_valid(CARD_NUMBER_PATTERN)
            && regex_is_valid(EMAIL_PATTERN)
    }

    /// All three masks applied to `text`, or `None` when a pattern does not
    /// compile.
    pub fn try_mask_all(text: &str) -> (r: Option<String>)
        ensures
            r.is_some() == masker_patterns_compile(),
            r matches Some(s) ==> s@ == masked_all(text@),
    {
        if Self::patterns_compile() {
            Some(Self::mask_all(text))
        } else {
            None
        }
    }
}

// ---------------------------------------------------------------------------
// Prompts
// ---------------------------------------------------------------------------

/// Separator between custom criteria in a custom-analysis prompt.
pub const CRITERIA_SEPARATOR: &'static str = "\n- ";

/// The prompt for an image analysis of the given kind.
pub open spec fn image_analysis_prompt(kind: ImageAnalysisType, criteria: Seq<Seq<char>>) -> Seq<char> {
    match kind {
        ImageAnalysisType::ProductQuality => PRODUCT_QUALITY_PROMPT@,
        ImageAnalysisType::Composition => COMPOSITION_PROMPT@,
        ImageAnalysisType::BrandConsistency => BRAND_CONSISTENCY_PROMPT@,
        ImageAnalysisType::Custom => CUSTOM_PROMPT_HEAD@ + joined(criteria, CRITERIA_SEPARATOR@)
            + CUSTOM_PROMPT_TAIL@,
    }
}

/// The schema hint of an extraction prompt: empty without a schema.
pub open spec fn schema_hint(schema: Option<Seq<char>>) -> Seq<char> {
    match schema {
        Some(s) => SCHEMA_HINT_HEAD@ + s + SCHEMA_HINT_TAIL@,
        None => Seq::empty(),
    }
}

/// The prompt for extracting what `description` asks for.
pub open spec fn extract_prompt(description: Seq<char>, schema: Option<Seq<char>>) -> Seq<char> {
    EXTRACT_PROMPT_HEAD@ + description + EXTRACT_PROMPT_MIDDLE@ + schema_hint(schema)
        + EXTRACT_PROMPT_TAIL@
}

/// Client of the Gemini API.
#[derive(Debug, Clone)]
pub struct GeminiClient {
    pub api_key: String,
    pub model: String,
    pub timeout_ms: u64,
}

impl GeminiClient {
    /// The prompt that asks for the login form on a screenshot; the same for
    /// every screenshot.
    pub fn generate_login_prompt(_screenshot_base64: &str) -> (r: String)
        ensures
            r@ == LOGIN_PROMPT@,
    {
        owned(LOGIN_PROMPT)
    }

    /// The prompt for the given kind of image analysis; a custom analysis
    /// lists the criteria, one per line.
    pub fn generate_image_analysis_prompt(analysis_type: &ImageAnalysisType, custom_criteria: &[String]) -> (r: String)
        ensures
            r@ == image_analysis_prompt(*analysis_type, views(custom_criteria@)),
    {
        match analysis_type {
            ImageAnalysisType::ProductQuality => owned(PRODUCT_QUALITY_PROMPT),
            ImageAnalysisType::Composition => owned(COMPOSITION_PROMPT),
            ImageAnalysisType::BrandConsistency => owned(BRAND_CONSISTENCY_PROMPT),
            ImageAnalysisType::Custom => {
                let mut r = owned(CUSTOM_PROMPT_HEAD);
                let criteria = crate::strops::join_str(custom_criteria, CRITERIA_SEPARATOR);
                push_str(&mut r, criteria.as_str());
                push_str(&mut r, CUSTOM_PROMPT_TAIL);
                r
            },
        }
    }

    /// The prompt for extracting what `description` asks for, with the
    /// expected schema (pretty-printed JSON) when one is given.
    pub fn generate_extract_prompt(description: &str, schema: Option<&str>) -> (r: String)
        ensures
            r@ == extract_prompt(
                description@,
                match schema {
                    Some(s) => Some(s@),
                    None => None,
                },
            ),
    {
        let mut r = owned(EXTRACT_PROMPT_HEAD);
        push_str(&mut r, description);
        push_str(&mut r, EXTRACT_PROMPT_MIDDLE);
        match schema {
            Some(s) => {
                push_str(&mut r, SCHEMA_HINT_HEAD);
                push_str(&mut r, s);
                push_str(&mut r, SCHEMA_HINT_TAIL);
            },
            None => {},
        }
        push_str(&mut r, EXTRACT_PROMPT_TAIL);
        r
    }
}

// ---------------------------------------------------------------------------
// Ollama
// ---------------------------------------------------------------------------

/// An Ollama host value turned into a usable HTTP URL: whitespace and
/// trailing slashes dropped, `0.0.0.0` replaced by the loopback address, a
/// scheme added when missing, and the default port when no port is given.
pub open spec fn normalized_host(raw: Seq<char>) -> Seq<char> {
    let s = trim_end_char(trimmed(raw), '/');
    if starts_with_seq(s, "http://"@) || starts_with_seq(s, "https://"@) {
        replaced(s, "://0.0.0.0"@, "://127.0.0.1"@)
    } else {
        let n = replaced("http://"@ + s, "://0.0.0.0"@, "://127.0.0.1"@);
        if !s.contains(':') {
            n + ":11434"@
        } else {
            n
        }
    }
}

/// The Ollama base URL for an optional host setting: the normalised host
/// when it is set and not empty, the local default otherwise.
pub open spec fn ollama_base_url(host: Option<Seq<char>>) -> Seq<char> {
    match host {
        Some(h) => if h.len() > 0 {
            normalized_host(h)
        } else {
            "http://localhost:11434"@
        },
        None => "http://localhost:11434"@,
    }
}

/// Client of a local Ollama server.
#[derive(Debug, Clone)]
pub struct OllamaClient {
    pub base_url: String,
    pub model: String,
    pub timeout_ms: u64,
}

impl OllamaClient {
    /// A client for the server named by the host setting (`OLLAMA_HOST`),
    /// with the given model and timeout.
    pub fn with_host(host: Option<&str>, model: String, timeout_ms: u64) -> (c: Self)
        ensures
            c.base_url@ == ollama_base_url(
                match host {
                    Some(h) => Some(h@),
                    None => None,
                },
            ),
            c.model == model,
            c.timeout_ms == timeout_ms,
    {
        let base_url = match host {
            Some(h) => if h.unicode_len() > 0 {
                Self::normalize_host(h)
            } else {
                owned("http://localhost:11434")
            },
            None => owned("http://localhost:11434"),
        };
        OllamaClient { base_url, model, timeout_ms }
    }

    /// Turns an Ollama host value into a usable HTTP URL:
    /// `0.0.0.0` becomes `http://127.0.0.1:11434`.
    pub fn normalize_host(raw: &str) -> (r: String)
        ensures
            r@ == normalized_host(raw@),
    {
        proof {
            reveal_strlit("://0.0.0.0");
        }
        let t = trim_str(raw);
        let s = trim_end_char_str(t.as_str(), '/');
        if str_starts_with(s.as_str(), "http://") || str_starts_with(s.as_str(), "https://") {
            return replace_str(s.as_str(), "://0.0.0.0", "://127.0.0.1");
        }
        let mut w = owned("http://");
        push_str(&mut w, s.as_str());
        let mut n = replace_str(w.as_str(), "://0.0.0.0", "://127.0.0.1");
        if !str_contains_char(s.as_str(), ':') {
            push_str(&mut n, ":11434");
        }
        n
    }
}

/// The configured AI provider.
#[derive(Debug, Clone)]
pub enum AiClient {
    Gemini(GeminiClient),
    Ollama(OllamaClient),
}

impl AiClient {
    /// The provider's name: `gemini` or `ollama`.
    pub fn provider_name(&self) -> (r: &str)
        ensures
            r@ == (match self {
                AiClient::Gemini(_) => "gemini"@,
                AiClient::Ollama(_) => "ollama"@,
            }),
    {
        match self {
            AiClient::Gemini(_) => "gemini",
            AiClient::Ollama(_) => "ollama",
        }
    }
}

// ---------------------------------------------------------------------------
// JSON in a model's answer
// ---------------------------------------------------------------------------

/// The length of the opening fence marker: ```` ```json ```` or ```` ``` ````.
pub open spec fn fence_marker_len(r: Seq<char>) -> int {
    if starts_with_seq(r, "```json"@) {
        7
    } else {
        3
    }
}

/// Where the body of a fenced block starts: after the first line break, or
/// one past the marker when there is none.
pub open spec fn fence_body_start(r: Seq<char>) -> int {
    match find_first(r, '\n') {
        Some(i) => i + 1,
        None => fence_marker_len(r) + 1,
    }
}

/// Where the body of a fenced block ends: at the last fence.
pub open spec fn fence_body_end(r: Seq<char>) -> int {
    match find_last_seq(r, "```"@) {
        Some(i) => i,
        None => r.len() as int,
    }
}

/// The answer can be cut as `extract_json_from_response` cuts it: the
/// computed start never lies after the computed end.
pub open spec fn json_extraction_defined(response: Seq<char>) -> bool {
    let r = trimmed(response);
    if starts_with_seq(r, "```"@) {
        fence_body_start(r) <= fence_body_end(r)
    } else {
        match (find_first(r, '{'), find_last(r, '}')) {
            (Some(a), Some(b)) => a <= b + 1,
            _ => match (find_first(r, '['), find_last(r, ']')) {
                (Some(a), Some(b)) => a <= b + 1,
                _ => true,
            },
        }
    }
}

/// The JSON part of a model's answer: the body of a fenced code block, else
/// the text from the first `{` to the last `}`, else from the first `[` to
/// the last `]`, else the whole (trimmed) answer.
pub open spec fn json_extracted(response: Seq<char>) -> Seq<char> {
    let r = trimmed(response);
    if starts_with_seq(r, "```"@) {
        trimmed(r.subrange(fence_body_start(r), fence_body_end(r)))
    } else {
        match (find_first(r, '{'), find_last(r, '}')) {
            (Some(a), Some(b)) => r.subrange(a, b + 1),
            _ => match (find_first(r, '['), find_last(r, ']')) {
                (Some(a), Some(b)) => r.subrange(a, b + 1),
                _ => r,
            },
        }
    }
}

/// Cuts the JSON part out of a model's answer, handling Markdown code
/// fences.
pub fn extract_json_from_response(response: &str) -> (r: String)
    requires
        json_extraction_defined(response@),
    ensures
        r@ == json_extracted(response@),
{
    let t = trim_str(response);
    let cs = chars_of(t.as_str());
    let len: usize = cs.len();
    if str_starts_with(t.as_str(), "```") {
        let marker: usize = if str_starts_with(t.as_str(), "```json") {
            7
        } else {
            3
        };
        let start: usize = match position_first(&cs, '\n') {
            Some(i) => i + 1,
            None => marker + 1,
        };
        let fence = chars_of("```");
        let end: usize = match position_last_seq(&cs, &fence) {
            Some(i) => i,
            None => len,
        };
        proof {
            reveal_strlit("```");
        }
        let body = slice_chars(&cs, start, end);
        return trim_str(body.as_str());
    }
    match (position_first(&cs, '{'), position_last(&cs, '}')) {
        (Some(a), Some(b)) => {
            return slice_chars(&cs, a, b + 1);
        },
        _ => {},
    }
    match (position_first(&cs, '['), position_last(&cs, ']')) {
        (Some(a), Some(b)) => {
            return slice_chars(&cs, a, b + 1);
        },
        _ => {},
    }
    t
}

/// Whether `extract_json_from_response` can cut this answer.
pub fn json_extraction_is_defined(response: &str) -> (b: bool)
    ensures
        b == json_extraction_defined(response@),
{
    let t = trim_str(response);
    let cs = chars_of(t.as_str());
    let len: usize = cs.len();
    if str_starts_with(t.as_str(), "```") {
        let marker: usize = if str_starts_with(t.as_str(), "```json") {
            7
        } else {
            3
        };
        let start: usize = match position_first(&cs, '\n') {
            Some(i) => i + 1,
            None => marker + 1,
        };
        let fence = chars_of("```");
        let end: usize = match position_last_seq(&cs, &fence) {
            Some(i) => i,
            None => len,
        };
        return start <= end;
    }
    match (position_first(&cs, '{'), position_last(&cs, '}')) {
        (Some(a), Some(b)) => {
            return a <= b + 1;
        },
        _ => {},
    }
    match (position_first(&cs, '['), position_last(&cs, ']')) {
        (Some(a), Some(b)) => a <= b + 1,
        _ => true,
    }
}

/// The JSON part of a model's answer, or `None` when the answer cannot be
/// cut (its computed start lies after its computed end).
pub fn try_extract_json(response: &str) -> (r: Option<String>)
    ensures
        r.is_some() == json_extraction_defined(response@),
        r matches Some(s) ==> s@ == json_extracted(response@),
{
    if json_extraction_is_defined(response) {
        Some(extract_json_from_response(response))
    } else {
        None
    }
}

// ---------------------------------------------------------------------------
// Host normalisation law
// ---------------------------------------------------------------------------

/// The wildcard address that `normalized_host` rewrites.
spec fn any_addr() -> Seq<char> {
    seq![':', '/', '/', '0', '.', '0', '.', '0', '.', '0']
}

/// The loopback address that replaces it.
spec fn loopback() -> Seq<char> {
    seq![':', '/', '/', '1', '2', '7', '.', '0', '.', '0', '.', '1']
}

/// No character of `s` is whitespace.
pub open spec fn no_whitespace(s: Seq<char>) -> bool {
    forall|i: int| 0 <= i < s.len() ==> !is_whitespace(#[trigger] s[i])
}

/// `p` occurs nowhere in `s`.
spec fn absent(s: Seq<char>, p: Seq<char>) -> bool {
    forall|i: int| !occurs_at(s, p, i)
}

proof fn lemma_literals()
    ensures
        "://0.0.0.0"@ == any_addr(),
        "://127.0.0.1"@ == loopback(),
        "http://"@ == seq!['h', 't', 't', 'p', ':', '/', '/'],
        "https://"@ == seq!['h', 't', 't', 'p', 's', ':', '/', '/'],
        ":11434"@ == seq![':', '1', '1', '4', '3', '4'],
{
    reveal_strlit("://0.0.0.0");
    reveal_strlit("://127.0.0.1");
    reveal_strlit("http://");
    reveal_strlit("https://");
    reveal_strlit(":11434");
    assert("://0.0.0.0"@ =~= any_addr());
    assert("://127.0.0.1"@ =~= loopback());
    assert("http://"@ =~= seq!['h', 't', 't', 'p', ':', '/', '/']);
    assert("https://"@ =~= seq!['h', 't', 't', 'p', 's', ':', '/', '/']);
    assert(":11434"@ =~= seq![':', '1', '1', '4', '3', '4']);
}

/// A text without whitespace is its own trim.
proof fn lemma_trimmed_plain(s: Seq<char>)
    requires
        no_whitespace(s),
    ensures
        trimmed(s) == s,
{
    assert(crate::strops::trim_start_seq(s) == s);
    assert(crate::strops::trim_end_seq(s) == s);
}

/// Trimming a character off the end leaves a prefix that does not end with
/// it.
proof fn lemma_trim_end_char(s: Seq<char>, c: char)
    ensures
        trim_end_char(s, c).len() <= s.len(),
        trim_end_char(s, c) == s.subrange(0, trim_end_char(s, c).len() as int),
        trim_end_char(s, c).len() > 0 ==> trim_end_char(s, c).last() != c,
        s.len() == 0 || s.last() != c ==> trim_end_char(s, c) == s,
    decreases s.len(),
{
    if s.len() > 0 && s.last() == c {
        lemma_trim_end_char(s.drop_last(), c);
        let r = trim_end_char(s.drop_last(), c);
        assert(s.drop_last().subrange(0, r.len() as int) =~= s.subrange(0, r.len() as int));
    } else {
        assert(s.subrange(0, s.len() as int) =~= s);
    }
}

/// The replacement leaves alone a prefix without colons.
proof fn lemma_replaced_keeps_prefix(x: Seq<char>, w: Seq<char>)
    requires
        starts_with_seq(x, w),
        forall|i: int| 0 <= i < w.len() ==> #[trigger] w[i] != ':',
    ensures
        replaced(x, any_addr(), loopback()) == w + replaced(x.subrange(w.len() as int, x.len() as int), any_addr(), loopback()),
    decreases w.len(),
{
    let p = any_addr();
    let q = loopback();
    if w.len() == 0 {
        assert(x.subrange(0, x.len() as int) =~= x);
        assert(w + replaced(x, p, q) =~= replaced(x, p, q));
    } else {
        assert(x[0] == w[0]);
        let x1 = x.drop_first();
        let w1 = w.drop_first();
        assert(starts_with_seq(x1, w1)) by {
            assert(x1.subrange(0, w1.len() as int) =~= x.subrange(0, w.len() as int).drop_first());
        }
        assert forall|i: int| 0 <= i < w1.len() implies #[trigger] w1[i] != ':' by {
            assert(w1[i] == w[i + 1]);
        }
        lemma_replaced_keeps_prefix(x1, w1);
        assert(x1.subrange(w1.len() as int, x1.len() as int) =~= x.subrange(w.len() as int, x.len() as int));
        if x.len() < p.len() {
            assert(replaced(x, p, q) == x);
            assert(replaced(x1, p, q) == x1);
            let rest = x.subrange(w.len() as int, x.len() as int);
            assert(replaced(rest, p, q) == rest);
            assert(x =~= w + rest);
        } else {
            assert(x.subrange(0, p.len() as int)[0] != p[0]);
            assert(x.subrange(0, p.len() as int) != p);
            assert(replaced(x, p, q) == seq![x[0]] + replaced(x1, p, q));
            assert(seq![x[0]] + (w1 + replaced(x1.subrange(w1.len() as int, x1.len() as int), p, q))
                =~= w + replaced(x.subrange(w.len() as int, x.len() as int), p, q));
        }
    }
}

/// What the replacement gives starts with a colon-free `w` only when the
/// text did.
proof fn lemma_replaced_prefix_back(t: Seq<char>, w: Seq<char>)
    requires
        starts_with_seq(replaced(t, any_addr(), loopback()), w),
        forall|i: int| 0 <= i < w.len() ==> #[trigger] w[i] != ':',
    ensures
        starts_with_seq(t, w),
    decreases t.len(),
{
    let p = any_addr();
    let q = loopback();
    let y = replaced(t, p, q);
    if w.len() == 0 {
        assert(t.subrange(0, 0) =~= w);
    } else if t.len() < p.len() {
        assert(y == t);
    } else if t.subrange(0, p.len() as int) == p {
        assert(y == q + replaced(t.subrange(p.len() as int, t.len() as int), p, q));
        assert(y[0] == w[0]);
        assert(y[0] == ':');
    } else {
        let t1 = t.drop_first();
        let w1 = w.drop_first();
        assert(y == seq![t[0]] + replaced(t1, p, q));
        assert(starts_with_seq(replaced(t1, p, q), w1)) by {
            assert(replaced(t1, p, q).subrange(0, w1.len() as int) =~= y.subrange(0, w.len() as int).drop_first());
        }
        assert forall|i: int| 0 <= i < w1.len() implies #[trigger] w1[i] != ':' by {
            assert(w1[i] == w[i + 1]);
        }
        lemma_replaced_prefix_back(t1, w1);
        assert(t[0] == y[0]);
        assert(t.subrange(0, w.len() as int) =~= seq![t[0]] + t1.subrange(0, w1.len() as int));
        assert(w =~= seq![w[0]] + w1);
    }
}

/// The replacement leaves no wildcard address, keeps text without whitespace
/// free of it, leaves text without the address unchanged, and keeps a last
/// character other than `/`.
proof fn lemma_replaced_host(x: Seq<char>)
    ensures
        absent(replaced(x, any_addr(), loopback()), any_addr()),
        absent(x, any_addr()) ==> replaced(x, any_addr(), loopback()) == x,
        no_whitespace(x) ==> no_whitespace(replaced(x, any_addr(), loopback())),
        x.len() > 0 && x.last() != '/' ==> replaced(x, any_addr(), loopback()).len() > 0
            && replaced(x, any_addr(), loopback()).last() != '/',
    decreases x.len(),
{
    let p = any_addr();
    let q = loopback();
    let y = replaced(x, p, q);
    if x.len() < p.len() {
        assert forall|i: int| !occurs_at(y, p, i) by {
            if occurs_at(y, p, i) {
                assert(i + p.len() <= y.len());
            }
        }
    } else if x.subrange(0, p.len() as int) == p {
        let x1 = x.subrange(p.len() as int, x.len() as int);
        let y1 = replaced(x1, p, q);
        lemma_replaced_host(x1);
        assert(y == q + y1);
        assert forall|i: int| !occurs_at(y, p, i) by {
            if occurs_at(y, p, i) {
                if i >= q.len() {
                    assert(y.subrange(i, i + p.len()) =~= y1.subrange(i - q.len(), i - q.len() + p.len()));
                    assert(occurs_at(y1, p, i - q.len()));
                } else if i == 0 {
                    assert(y.subrange(0, p.len() as int)[3] == p[3]);
                } else {
                    assert(y.subrange(i, i + p.len())[0] == p[0]);
                    assert(y[i] == q[i]);
                }
            }
        }
        assert(occurs_at(x, p, 0));
        if no_whitespace(x) {
            assert(no_whitespace(x1)) by {
                assert forall|i: int| 0 <= i < x1.len() implies !is_whitespace(#[trigger] x1[i]) by {
                    assert(x1[i] == x[i + p.len()]);
                }
            }
            assert forall|i: int| 0 <= i < y.len() implies !is_whitespace(#[trigger] y[i]) by {
                if i < q.len() {
                    assert(y[i] == q[i]);
                } else {
                    assert(y[i] == y1[i - q.len()]);
                }
            }
        }
        if x.len() > 0 && x.last() != '/' {
            if x1.len() > 0 {
                assert(x1.last() == x.last());
                assert(y.last() == y1.last());
            } else {
                assert(y1 == x1);
                assert(y =~= q);
            }
        }
    } else {
        let x1 = x.drop_first();
        let y1 = replaced(x1, p, q);
        lemma_replaced_host(x1);
        assert(y == seq![x[0]] + y1);
        assert forall|i: int| !occurs_at(y, p, i) by {
            if occurs_at(y, p, i) {
                if i >= 1 {
                    assert(y.subrange(i, i + p.len()) =~= y1.subrange(i - 1, i - 1 + p.len()));
                    assert(occurs_at(y1, p, i - 1));
                } else {
                    let w = p.drop_first();
                    assert forall|k: int| 0 <= k < w.len() implies #[trigger] w[k] != ':' by {
                        assert(w[k] == p[k + 1]);
                    }
                    assert(starts_with_seq(y1, w)) by {
                        assert(y1.subrange(0, w.len() as int) =~= y.subrange(0, p.len() as int).drop_first());
                    }
                    lemma_replaced_prefix_back(x1, w);
                    assert(x[0] == y[0]);
                    assert(x.subrange(0, p.len() as int) =~= seq![x[0]] + x1.subrange(0, w.len() as int));
                    assert(p =~= seq![p[0]] + w);
                }
            }
        }
        if absent(x, p) {
            assert(absent(x1, p)) by {
                assert forall|i: int| !occurs_at(x1, p, i) by {
                    if occurs_at(x1, p, i) {
                        assert(x.subrange(i + 1, i + 1 + p.len()) =~= x1.subrange(i, i + p.len()));
                        assert(occurs_at(x, p, i + 1));
                    }
                }
            }
            assert(y =~= x);
        }
        if no_whitespace(x) {
            assert(no_whitespace(x1)) by {
                assert forall|i: int| 0 <= i < x1.len() implies !is_whitespace(#[trigger] x1[i]) by {
                    assert(x1[i] == x[i + 1]);
                }
            }
            assert forall|i: int| 0 <= i < y.len() implies !is_whitespace(#[trigger] y[i]) by {
                if i > 0 {
                    assert(y[i] == y1[i - 1]);
                } else {
                    assert(y[0] == x[0]);
                }
            }
        }
        if x.len() > 0 && x.last() != '/' {
            assert(x1.len() > 0);
            assert(x1.last() == x.last());
            assert(y.last() == y1.last());
        }
    }
}

/// The replacement keeps a leading scheme `w` followed by `://`.
proof fn lemma_replaced_keeps_scheme(x: Seq<char>, w: Seq<char>)
    requires
        starts_with_seq(x, w + seq![':', '/', '/']),
        forall|i: int| 0 <= i < w.len() ==> #[trigger] w[i] != ':',
    ensures
        starts_with_seq(replaced(x, any_addr(), loopback()), w + seq![':', '/', '/']),
{
    let p = any_addr();
    let q = loopback();
    let s = w + seq![':', '/', '/'];
    assert(x.subrange(0, s.len() as int) == s);
    assert(starts_with_seq(x, w)) by {
        assert(x.subrange(0, w.len() as int) =~= x.subrange(0, s.len() as int).subrange(0, w.len() as int));
        assert(s.subrange(0, w.len() as int) =~= w);
    }
    lemma_replaced_keeps_prefix(x, w);
    let x1 = x.subrange(w.len() as int, x.len() as int);
    let y1 = replaced(x1, p, q);
    assert(x1.len() >= 3);
    assert(x1.subrange(0, 3) =~= seq![':', '/', '/']) by {
        assert(x1.subrange(0, 3) =~= x.subrange(0, s.len() as int).subrange(w.len() as int, s.len() as int));
        assert(s.subrange(w.len() as int, s.len() as int) =~= seq![':', '/', '/']);
    }
    assert(x1[0] == ':' && x1[1] == '/' && x1[2] == '/') by {
        assert(x1.subrange(0, 3)[0] == x1[0]);
        assert(x1.subrange(0, 3)[1] == x1[1]);
        assert(x1.subrange(0, 3)[2] == x1[2]);
    }
    let y = replaced(x, p, q);
    assert(starts_with_seq(y1, seq![':', '/', '/'])) by {
        if x1.len() < p.len() {
            assert(y1 == x1);
            assert(y1.subrange(0, 3) =~= seq![':', '/', '/']);
        } else if x1.subrange(0, p.len() as int) == p {
            assert(y1 == q + replaced(x1.subrange(p.len() as int, x1.len() as int), p, q));
            assert(y1.subrange(0, 3) =~= seq![':', '/', '/']);
        } else {
            let x2 = x1.drop_first();
            assert(y1 == seq![x1[0]] + replaced(x2, p, q));
            let sl = seq!['/', '/'];
            assert(starts_with_seq(x2, sl)) by {
                assert(x2.subrange(0, 2) =~= sl);
            }
            assert forall|i: int| 0 <= i < sl.len() implies #[trigger] sl[i] != ':' by {}
            lemma_replaced_keeps_prefix(x2, sl);
            let r2 = replaced(x2.subrange(2, x2.len() as int), p, q);
            assert(replaced(x2, p, q) == sl + r2);
            assert(y1 =~= seq![x1[0]] + sl + r2);
            assert(y1.subrange(0, 3) =~= seq![':', '/', '/']);
        }
    }
    assert(y.subrange(0, s.len() as int) =~= w + y1.subrange(0, 3));
}

/// The host `normalized_host` gives for a value without whitespace is a
/// fixed point: it starts with `http://` or `https://`, holds no
/// `://0.0.0.0`, does not end with `/`, and normalising it again changes
/// nothing.
pub proof fn law_normalized_host(raw: Seq<char>)
    requires
        no_whitespace(raw),
    ensures
        starts_with_seq(normalized_host(raw), "http://"@) || starts_with_seq(normalized_host(raw), "https://"@),
        !contains_seq(normalized_host(raw), "://0.0.0.0"@),
        normalized_host(raw).len() > 0 && normalized_host(raw).last() != '/',
        normalized_host(normalized_host(raw)) == normalized_host(raw),
{
    lemma_literals();
    let p = any_addr();
    let q = loopback();
    let http = seq!['h', 't', 't', 'p'];
    let https = seq!['h', 't', 't', 'p', 's'];
    assert(forall|i: int| 0 <= i < http.len() ==> #[trigger] http[i] != ':');
    assert(forall|i: int| 0 <= i < https.len() ==> #[trigger] https[i] != ':');
    assert(http + seq![':', '/', '/'] =~= "http://"@);
    assert(https + seq![':', '/', '/'] =~= "https://"@);
    lemma_trimmed_plain(raw);
    lemma_trim_end_char(raw, '/');
    let s = trim_end_char(raw, '/');
    assert(no_whitespace(s)) by {
        assert forall|i: int| 0 <= i < s.len() implies !is_whitespace(#[trigger] s[i]) by {
            assert(s[i] == raw[i]);
        }
    }
    let h = normalized_host(raw);
    if starts_with_seq(s, "http://"@) || starts_with_seq(s, "https://"@) {
        assert(h == replaced(s, p, q));
        lemma_replaced_host(s);
        if starts_with_seq(s, "http://"@) {
            lemma_replaced_keeps_scheme(s, http);
        } else {
            lemma_replaced_keeps_scheme(s, https);
        }
        assert(s.len() > 0);
    } else {
        let x = "http://"@ + s;
        let n = replaced(x, p, q);
        lemma_replaced_host(x);
        assert(starts_with_seq(x, "http://"@)) by {
            assert(x.subrange(0, 7) =~= "http://"@);
        }
        lemma_replaced_keeps_scheme(x, http);
        assert(no_whitespace(x)) by {
            assert forall|i: int| 0 <= i < x.len() implies !is_whitespace(#[trigger] x[i]) by {
                if i >= 7 {
                    assert(x[i] == s[i - 7]);
                }
            }
        }
        if !s.contains(':') {
            let tail = ":11434"@;
            assert(h == n + tail);
            assert(starts_with_seq(h, "http://"@)) by {
                assert(h.subrange(0, 7) =~= n.subrange(0, 7));
            }
            assert forall|i: int| !occurs_at(h, p, i) by {
                if occurs_at(h, p, i) {
                    if i + p.len() <= n.len() {
                        assert(h.subrange(i, i + p.len()) =~= n.subrange(i, i + p.len()));
                        assert(occurs_at(n, p, i));
                    } else {
                        let k = n.len() - i;
                        assert(1 <= k < p.len());
                        assert(h.subrange(i, i + p.len())[k] == p[k]);
                        assert(h[i + k] == tail[0]);
                    }
                }
            }
            assert forall|i: int| 0 <= i < h.len() implies !is_whitespace(#[trigger] h[i]) by {
                if i >= n.len() {
                    assert(h[i] == tail[i - n.len()]);
                } else {
                    assert(h[i] == n[i]);
                }
            }
            assert(h.last() == '4');
        } else {
            assert(h == n);
            assert(s.len() > 0);
            assert(x.last() == s.last());
        }
    }
    // h is a fixed point
    assert(absent(h, p));
    assert(!contains_seq(h, "://0.0.0.0"@));
    assert(no_whitespace(h));
    lemma_trimmed_plain(h);
    lemma_trim_end_char(h, '/');
    lemma_replaced_host(h);
    assert(trim_end_char(trimmed(h), '/') == h);
    assert(normalized_host(h) == replaced(h, p, q));
}

} // verus!
