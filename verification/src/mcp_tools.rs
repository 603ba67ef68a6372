//! Model Context Protocol tools: the tool catalogues, the planning of a
//! tool call from its name and arguments (which request to make, with which
//! values, or which error to answer), the planning of a resource read, and
//! the texts of the replies.

use vstd::prelude::*;

use crate::goal::{param_bool_or, param_str, param_str_opt, param_str_spec, param_u64_or, param_lookup, param_views, ParamValue, ParamView};
use crate::mcp::McpResource;
use crate::text::{contains_seq, decimal, escape_quotes, escape_quotes_str, owned, push_decimal, push_str, starts_with_seq, str_contains, str_contains_char, str_eq, str_starts_with};

verus! {

// ---------------------------------------------------------------------------
// JSON-RPC methods
// ---------------------------------------------------------------------------

/// The JSON-RPC methods the server answers.
#[derive(Debug, Clone, Copy, PartialEq, Eq, Structural)]
pub enum RpcMethod {
    Initialize,
    Initialized,
    ToolsList,
    ToolsCall,
    ResourcesList,
    ResourcesRead,
    Ping,
    Unknown,
}

/// The method a request names.
pub open spec fn method_of(m: Seq<char>) -> RpcMethod {
    if m == "initialize"@ {
        RpcMethod::Initialize
    } else if m == "initialized"@ || m == "notifications/initialized"@ {
        RpcMethod::Initialized
    } else if m == "tools/list"@ {
        RpcMethod::ToolsList
    } else if m == "tools/call"@ {
        RpcMethod::ToolsCall
    } else if m == "resources/list"@ {
        RpcMethod::ResourcesList
    } else if m == "resources/read"@ {
        RpcMethod::ResourcesRead
    } else if m == "ping"@ {
        RpcMethod::Ping
    } else {
        RpcMethod::Unknown
    }
}

/// The method a request names.
pub fn classify_method(m: &str) -> (r: RpcMethod)
    ensures
        r == method_of(m@),
{
    if str_eq(m, "initialize") {
        RpcMethod::Initialize
    } else if str_eq(m, "initialized") || str_eq(m, "notifications/initialized") {
        RpcMethod::Initialized
    } else if str_eq(m, "tools/list") {
        RpcMethod::ToolsList
    } else if str_eq(m, "tools/call") {
        RpcMethod::ToolsCall
    } else if str_eq(m, "resources/list") {
        RpcMethod::ResourcesList
    } else if str_eq(m, "resources/read") {
        RpcMethod::ResourcesRead
    } else if str_eq(m, "ping") {
        RpcMethod::Ping
    } else {
        RpcMethod::Unknown
    }
}

/// The JSON-RPC version answered.
pub const JSONRPC_VERSION: &'static str = "2.0";

/// Error code of a request that is not valid JSON.
pub const PARSE_ERROR: i32 = -32700;

/// Error code of an unknown method.
pub const METHOD_NOT_FOUND: i32 = -32601;

/// Error code of a failed resource read.
pub const RESOURCE_ERROR: i32 = -32000;

/// The server the standard-input proxy forwards to.
pub const SERVER_URL: &'static str = "http://127.0.0.1:9400";

/// `prefix` followed by `detail`.
fn joined2(prefix: &str, detail: &str) -> (r: String)
    ensures
        r@ == prefix@ + detail@,
{
    let mut r = owned(prefix);
    push_str(&mut r, detail);
    r
}

/// `Method not found: <method>`.
pub fn method_not_found_message(method: &str) -> (r: String)
    ensures
        r@ == "Method not found: "@ + method@,
{
    joined2("Method not found: ", method)
}

/// `Parse error: <detail>`.
pub fn parse_error_message(detail: &str) -> (r: String)
    ensures
        r@ == "Parse error: "@ + detail@,
{
    joined2("Parse error: ", detail)
}

/// The URL of `path` on the server.
pub fn endpoint(path: &str) -> (r: String)
    ensures
        r@ == SERVER_URL@ + path@,
{
    joined2(SERVER_URL, path)
}

// ---------------------------------------------------------------------------
// Catalogues
// ---------------------------------------------------------------------------

/// The tools offered over standard input, as a JSON array of tool
/// descriptions with their input schemas.
pub const STDIO_TOOLS_JSON: &'static str = "[{\"description\":\"Navigate to a URL and wait for the page to load. Returns success status.\",\"inputSchema\":{\"properties\":{\"session\":{\"description\":\"Session name (default: 'default')\",\"type\":\"string\"},\"url\":{\"description\":\"The URL to navigate to\",\"type\":\"string\"}},\"required\":[\"url\"],\"type\":\"object\"},\"name\":\"browse\"},{\"description\":\"Take a screenshot of the current page. By default saves to file and returns filename (use download_file to retrieve). Set save_to_file=false to return base64 directly.\",\"inputSchema\":{\"properties\":{\"load_lazy_images\":{\"description\":\"Force load lazy images before screenshot (default: false)\",\"type\":\"boolean\"},\"save_to_file\":{\"description\":\"Save to file and return filename (default: true). Set false to return base64.\",\"type\":\"boolean\"},\"session\":{\"description\":\"Session name\",\"type\":\"string\"},\"timeout_ms\":{\"description\":\"Timeout for lazy image loading in ms (default: 10000)\",\"type\":\"integer\"}},\"type\":\"object\"},\"name\":\"screenshot\"},{\"description\":\"Extract text from elements matching a CSS selector.\",\"inputSchema\":{\"properties\":{\"selector\":{\"description\":\"CSS selector\",\"type\":\"string\"},\"session\":{\"description\":\"Session name\",\"type\":\"string\"}},\"required\":[\"selector\"],\"type\":\"object\"},\"name\":\"extract\"},{\"description\":\"Click on an element.\",\"inputSchema\":{\"properties\":{\"selector\":{\"description\":\"CSS selector\",\"type\":\"string\"},\"session\":{\"description\":\"Session name\",\"type\":\"string\"}},\"required\":[\"selector\"],\"type\":\"object\"},\"name\":\"click\"},{\"description\":\"Type text into an input element.\",\"inputSchema\":{\"properties\":{\"selector\":{\"description\":\"CSS selector\",\"type\":\"string\"},\"session\":{\"description\":\"Session name\",\"type\":\"string\"},\"text\":{\"description\":\"Text to type\",\"type\":\"string\"}},\"required\":[\"selector\",\"text\"],\"type\":\"object\"},\"name\":\"type_text\"},{\"description\":\"Execute JavaScript and return the result.\",\"inputSchema\":{\"properties\":{\"script\":{\"description\":\"JavaScript code\",\"type\":\"string\"},\"session\":{\"description\":\"Session name\",\"type\":\"string\"}},\"required\":[\"script\"],\"type\":\"object\"},\"name\":\"execute\"},{\"description\":\"Get all text content from the page.\",\"inputSchema\":{\"properties\":{\"session\":{\"description\":\"Session name\",\"type\":\"string\"}},\"type\":\"object\"},\"name\":\"get_text\"},{\"description\":\"Extract subtitles/captions from a YouTube video using yt-dlp.\",\"inputSchema\":{\"properties\":{\"auto_generated\":{\"description\":\"Include auto-generated subtitles. Default: true\",\"type\":\"boolean\"},\"format\":{\"description\":\"Output format: 'text', 'srt', 'vtt'. Default: 'text'\",\"type\":\"string\"},\"language\":{\"description\":\"Subtitle language code (e.g., 'ja', 'en'). Default: 'ja'\",\"type\":\"string\"},\"url\":{\"description\":\"YouTube video URL\",\"type\":\"string\"}},\"required\":[\"url\"],\"type\":\"object\"},\"name\":\"youtube_subtitles\"},{\"description\":\"Download a YouTube video or audio using yt-dlp.\",\"inputSchema\":{\"properties\":{\"audio_only\":{\"description\":\"Extract audio only as MP3. Default: false\",\"type\":\"boolean\"},\"output_dir\":{\"description\":\"Output directory. Default: 'downloads'\",\"type\":\"string\"},\"quality\":{\"description\":\"Quality: 'best', 'hd', 'sd', 'low'. Default: 'best'\",\"type\":\"string\"},\"url\":{\"description\":\"YouTube video URL\",\"type\":\"string\"}},\"required\":[\"url\"],\"type\":\"object\"},\"name\":\"youtube_download\"},{\"description\":\"Collect all images from the current page, optionally downloading them.\",\"inputSchema\":{\"properties\":{\"download\":{\"description\":\"Download images to files. Default: false\",\"type\":\"boolean\"},\"max_images\":{\"description\":\"Maximum images. Default: 100\",\"type\":\"integer\"},\"min_height\":{\"description\":\"Minimum image height filter\",\"type\":\"integer\"},\"min_width\":{\"description\":\"Minimum image width filter\",\"type\":\"integer\"},\"selector\":{\"description\":\"CSS selector for container. Default: 'body'\",\"type\":\"string\"},\"session\":{\"description\":\"Session name\",\"type\":\"string\"}},\"type\":\"object\"},\"name\":\"collect_images\"}]";

/// The tools offered over standard input, as JSON text.
pub fn get_tools() -> (r: String)
    ensures
        r@ == STDIO_TOOLS_JSON@,
{
    owned(STDIO_TOOLS_JSON)
}

/// A tool offered over HTTP: its name, description and input schema (JSON
/// text).
#[derive(Debug, Clone)]
pub struct McpTool {
    pub name: String,
    pub description: String,
    pub input_schema: String,
}

fn tool(name: &str, description: &str, schema: &str) -> (r: McpTool)
    ensures
        r.name@ == name@,
        r.description@ == description@,
        r.input_schema@ == schema@,
{
    McpTool { name: owned(name), description: owned(description), input_schema: owned(schema) }
}

/// The names of the tools offered over HTTP, in the order listed.
pub open spec fn http_tool_names() -> Seq<Seq<char>> {
    seq!["browse"@, "screenshot"@, "extract"@, "wait"@, "execute"@, "get_html"@, "get_text"@]
}

/// The tools offered over HTTP.
pub fn list_tools() -> (r: Vec<McpTool>)
    ensures
        r@.len() == http_tool_names().len(),
        forall|i: int| 0 <= i < r@.len() ==> (#[trigger] r@[i]).name@ == http_tool_names()[i],
{
    let mut r: Vec<McpTool> = Vec::new();
    r.push(tool("browse", "Navigate to a URL and load the page",
        "{\"properties\":{\"url\":{\"description\":\"The URL to navigate to\",\"type\":\"string\"}},\"required\":[\"url\"],\"type\":\"object\"}"));
    r.push(tool("screenshot", "Take a screenshot of the current page",
        "{\"properties\":{},\"type\":\"object\"}"));
    r.push(tool("extract", "Extract text content from elements matching a selector",
        "{\"properties\":{\"selector\":{\"description\":\"CSS selector for elements to extract\",\"type\":\"string\"}},\"required\":[\"selector\"],\"type\":\"object\"}"));
    r.push(tool("wait", "Wait for an element to appear on the page",
        "{\"properties\":{\"selector\":{\"description\":\"CSS selector to wait for\",\"type\":\"string\"},\"timeout\":{\"description\":\"Timeout in milliseconds (default: 10000)\",\"type\":\"integer\"}},\"required\":[\"selector\"],\"type\":\"object\"}"));
    r.push(tool("execute", "Execute JavaScript code in the page context",
        "{\"properties\":{\"script\":{\"description\":\"JavaScript code to execute\",\"type\":\"string\"}},\"required\":[\"script\"],\"type\":\"object\"}"));
    r.push(tool("get_html", "Get the HTML source of the current page",
        "{\"properties\":{},\"type\":\"object\"}"));
    r.push(tool("get_text", "Get the text content of the current page",
        "{\"properties\":{},\"type\":\"object\"}"));
    r
}

fn resource(uri: &str, name: &str, description: &str, mime: &str) -> (r: McpResource)
    ensures
        r.uri@ == uri@,
        r.name@ == name@,
        r.description@ == description@,
        r.mime_type@ == mime@,
{
    McpResource { uri: owned(uri), name: owned(name), description: owned(description), mime_type: owned(mime) }
}

/// The resources offered over standard input, in the order listed.
pub open spec fn stdio_resource_uris() -> Seq<Seq<char>> {
    seq!["browser://current/text"@, "browser://current/screenshot"@, "browser://screenshots/list"@, "browser://screenshots/{filename}"@]
}

/// The resources offered over standard input: the page text, a
/// screenshot, the list of saved screenshots, and one saved screenshot.
pub fn get_resources() -> (r: Vec<McpResource>)
    ensures
        r@.len() == stdio_resource_uris().len(),
        forall|i: int| 0 <= i < r@.len() ==> (#[trigger] r@[i]).uri@ == stdio_resource_uris()[i],
{
    let mut r: Vec<McpResource> = Vec::new();
    r.push(resource("browser://current/text", "Page Text",
        "Text content of current page", "text/plain"));
    r.push(resource("browser://current/screenshot", "Page Screenshot",
        "Screenshot of current page", "image/png"));
    r.push(resource("browser://screenshots/list", "Saved Screenshots List",
        "List of saved screenshot files", "application/json"));
    r.push(resource("browser://screenshots/{filename}", "Saved Screenshot",
        "Get a saved screenshot by filename (e.g., browser://screenshots/default_1738831886.png)", "image/png"));
    r
}

// ---------------------------------------------------------------------------
// Tool calls over standard input
// ---------------------------------------------------------------------------

/// The text of the script that collects the text of every element matching
/// the (already escaped) selector.
pub open spec fn extract_texts_script_text(escaped: Seq<char>) -> Seq<char> {
    "
                (function() {
                    var els = document.querySelectorAll(\""@ + escaped + "\");
                    var results = [];
                    els.forEach(function(el) { results.push(el.textContent.trim()); });
                    return JSON.stringify(results);
                })()
            "@
}

/// JavaScript that returns, as a JSON array, the trimmed text of every
/// element matching `selector` (double quotes in it escaped).
pub fn extract_texts_script(selector: &str) -> (r: String)
    ensures
        r@ == extract_texts_script_text(escape_quotes(selector@)),
{
    let mut r = owned("
                (function() {
                    var els = document.querySelectorAll(\"");
    let e = escape_quotes_str(selector);
    push_str(&mut r, e.as_str());
    push_str(&mut r, "\");
                    var results = [];
                    els.forEach(function(el) { results.push(el.textContent.trim()); });
                    return JSON.stringify(results);
                })()
            ");
    r
}

/// The boolean argument `key`, or `default`.
pub open spec fn arg_bool(pv: Seq<(Seq<char>, ParamView)>, key: Seq<char>, default: bool) -> bool {
    match param_lookup(pv, key) {
        Some(ParamView::Bool(b)) => b,
        _ => default,
    }
}

/// The unsigned-integer argument `key`, or `default`.
pub open spec fn arg_u64(pv: Seq<(Seq<char>, ParamView)>, key: Seq<char>, default: u64) -> u64 {
    match param_lookup(pv, key) {
        Some(ParamView::UInt(n)) => n,
        _ => default,
    }
}

/// `t + 5000` as a 64-bit unsigned addition that wraps around.
pub open spec fn plus_5000_wrapping(t: u64) -> u64 {
    if t + 5000 > u64::MAX {
        (t + 5000 - 18446744073709551616int) as u64
    } else {
        (t + 5000) as u64
    }
}

/// The session a tool call acts on: its `session` argument, else the
/// current session.
pub fn tool_session(args: &Vec<(String, ParamValue)>, current: &str) -> (r: String)
    ensures
        r@ == param_str_spec(param_views(args@), "session"@, current@),
{
    owned(crate::goal::param_str_or(args, "session", current))
}

/// What a tool call over standard input asks of the server.
#[derive(Debug, Clone)]
pub enum StdioToolAction {
    /// Navigate to `url`.
    Browse { url: String },
    /// Take a screenshot, first running the lazy-image script with its
    /// execution timeout when asked to, and save it to a file or return it.
    Screenshot { lazy_images: Option<(String, u64)>, save_to_file: bool },
    /// Run `script`, which collects element texts.
    Extract { script: String },
    /// Click the element.
    Click { selector: String },
    /// Type `text` into the element.
    TypeText { selector: String, text: String },
    /// Run `script`.
    Execute { script: String },
    /// Read the text of the page.
    GetText,
    /// Ask the server for the subtitles of a video.
    YoutubeSubtitles { url: String, language: String, format: String, auto_generated: bool },
    /// Ask the server to download a video; without an output directory the
    /// session's media directory is used.
    YoutubeDownload { url: String, quality: String, audio_only: bool, output_dir: Option<String> },
    /// Ask the server to collect the images of the page.
    CollectImages { selector: String, min_width: u64, min_height: u64, max_images: u64, download: bool },
}

/// The error a tool call over standard input is answered with, if any:
/// an unknown tool, or a missing required argument.
pub open spec fn stdio_tool_error(name: Seq<char>, pv: Seq<(Seq<char>, ParamView)>) -> Option<Seq<char>> {
    if name == "browse"@ || name == "youtube_subtitles"@ || name == "youtube_download"@ {
        if param_str_opt(pv, "url"@) is None { Some("Missing 'url'"@) } else { None }
    } else if name == "extract"@ || name == "click"@ {
        if param_str_opt(pv, "selector"@) is None { Some("Missing 'selector'"@) } else { None }
    } else if name == "type_text"@ {
        if param_str_opt(pv, "selector"@) is None {
            Some("Missing 'selector'"@)
        } else if param_str_opt(pv, "text"@) is None {
            Some("Missing 'text'"@)
        } else {
            None
        }
    } else if name == "execute"@ {
        if param_str_opt(pv, "script"@) is None { Some("Missing 'script'"@) } else { None }
    } else if name == "screenshot"@ || name == "get_text"@ || name == "collect_images"@ {
        None
    } else {
        Some("Unknown tool: "@ + name)
    }
}

/// `a` is the action a tool call over standard input plans.
pub open spec fn stdio_tool_planned(name: Seq<char>, pv: Seq<(Seq<char>, ParamView)>, a: StdioToolAction) -> bool {
    match a {
        StdioToolAction::Browse { url } => name == "browse"@ && param_str_opt(pv, "url"@) == Some(url@),
        StdioToolAction::Screenshot { lazy_images, save_to_file } => {
            let timeout = arg_u64(pv, "timeout_ms"@, 10000);
            &&& name == "screenshot"@
            &&& save_to_file == arg_bool(pv, "save_to_file"@, true)
            &&& if arg_bool(pv, "load_lazy_images"@, false) {
                lazy_images matches Some(l) && l.0@ == crate::screenshot::force_load_lazy_images_script(timeout as nat)
                    && l.1 == plus_5000_wrapping(timeout)
            } else {
                lazy_images is None
            }
        },
        StdioToolAction::Extract { script } => name == "extract"@ && (param_str_opt(pv, "selector"@) matches Some(s)
            && script@ == extract_texts_script_text(escape_quotes(s))),
        StdioToolAction::Click { selector } => name == "click"@ && param_str_opt(pv, "selector"@) == Some(selector@),
        StdioToolAction::TypeText { selector, text } => name == "type_text"@
            && param_str_opt(pv, "selector"@) == Some(selector@) && param_str_opt(pv, "text"@) == Some(text@),
        StdioToolAction::Execute { script } => name == "execute"@ && param_str_opt(pv, "script"@) == Some(script@),
        StdioToolAction::GetText => name == "get_text"@,
        StdioToolAction::YoutubeSubtitles { url, language, format, auto_generated } => {
            &&& name == "youtube_subtitles"@
            &&& param_str_opt(pv, "url"@) == Some(url@)
            &&& language@ == param_str_spec(pv, "language"@, "ja"@)
            &&& format@ == param_str_spec(pv, "format"@, "text"@)
            &&& auto_generated == arg_bool(pv, "auto_generated"@, true)
        },
        StdioToolAction::YoutubeDownload { url, quality, audio_only, output_dir } => {
            &&& name == "youtube_download"@
            &&& param_str_opt(pv, "url"@) == Some(url@)
            &&& quality@ == param_str_spec(pv, "quality"@, "best"@)
            &&& audio_only == arg_bool(pv, "audio_only"@, false)
            &&& match output_dir {
                Some(d) => param_str_opt(pv, "output_dir"@) == Some(d@),
                None => param_str_opt(pv, "output_dir"@) is None,
            }
        },
        StdioToolAction::CollectImages { selector, min_width, min_height, max_images, download } => {
            &&& name == "collect_images"@
            &&& selector@ == param_str_spec(pv, "selector"@, "body"@)
            &&& min_width == arg_u64(pv, "min_width"@, 0)
            &&& min_height == arg_u64(pv, "min_height"@, 0)
            &&& max_images == arg_u64(pv, "max_images"@, 100)
            &&& download == arg_bool(pv, "download"@, false)
        },
    }
}

/// Plans a tool call over standard input: the request to make, or the
/// error to answer (unknown tool, missing argument).
pub fn plan_stdio_tool(name: &str, args: &Vec<(String, ParamValue)>) -> (r: Result<StdioToolAction, String>)
    ensures
        match r {
            Ok(a) => stdio_tool_error(name@, param_views(args@)) is None && stdio_tool_planned(name@, param_views(args@), a),
            Err(e) => stdio_tool_error(name@, param_views(args@)) == Some(e@),
        },
{
    let ghost pv = param_views(args@);
    proof {
        reveal_strlit("'");
        reveal_strlit("browse");
        assert("browse"@.len() == 6);
        reveal_strlit("screenshot");
        assert("screenshot"@.len() == 10);
        reveal_strlit("extract");
        assert("extract"@.len() == 7);
        reveal_strlit("click");
        assert("click"@.len() == 5);
        reveal_strlit("type_text");
        assert("type_text"@.len() == 9);
        reveal_strlit("execute");
        assert("execute"@.len() == 7);
        reveal_strlit("get_text");
        assert("get_text"@.len() == 8);
        reveal_strlit("youtube_subtitles");
        assert("youtube_subtitles"@.len() == 17);
        reveal_strlit("youtube_download");
        assert("youtube_download"@.len() == 16);
        reveal_strlit("collect_images");
        assert("collect_images"@.len() == 14);
        assert("extract"@[2] != "execute"@[2]);
    }
    if str_eq(name, "browse") {
        match param_str(args, "url") {
            Some(u) => Ok(StdioToolAction::Browse { url: owned(u) }),
            None => Err(owned("Missing 'url'")),
        }
    } else if str_eq(name, "screenshot") {
        let load_lazy = param_bool_or(args, "load_lazy_images", false);
        let timeout = param_u64_or(args, "timeout_ms", 10000);
        let save_to_file = param_bool_or(args, "save_to_file", true);
        let lazy_images = if load_lazy {
            Some((crate::screenshot::generate_force_load_lazy_images_script(timeout), timeout.wrapping_add(5000)))
        } else {
            None
        };
        Ok(StdioToolAction::Screenshot { lazy_images, save_to_file })
    } else if str_eq(name, "extract") {
        match param_str(args, "selector") {
            Some(s) => Ok(StdioToolAction::Extract { script: extract_texts_script(s) }),
            None => Err(owned("Missing 'selector'")),
        }
    } else if str_eq(name, "click") {
        match param_str(args, "selector") {
            Some(s) => Ok(StdioToolAction::Click { selector: owned(s) }),
            None => Err(owned("Missing 'selector'")),
        }
    } else if str_eq(name, "type_text") {
        match param_str(args, "selector") {
            Some(s) => match param_str(args, "text") {
                Some(t) => Ok(StdioToolAction::TypeText { selector: owned(s), text: owned(t) }),
                None => Err(owned("Missing 'text'")),
            },
            None => Err(owned("Missing 'selector'")),
        }
    } else if str_eq(name, "execute") {
        match param_str(args, "script") {
            Some(s) => Ok(StdioToolAction::Execute { script: owned(s) }),
            None => Err(owned("Missing 'script'")),
        }
    } else if str_eq(name, "get_text") {
        Ok(StdioToolAction::GetText)
    } else if str_eq(name, "youtube_subtitles") {
        match param_str(args, "url") {
            Some(u) => Ok(StdioToolAction::YoutubeSubtitles {
                url: owned(u),
                language: owned(crate::goal::param_str_or(args, "language", "ja")),
                format: owned(crate::goal::param_str_or(args, "format", "text")),
                auto_generated: param_bool_or(args, "auto_generated", true),
            }),
            None => Err(owned("Missing 'url'")),
        }
    } else if str_eq(name, "youtube_download") {
        match param_str(args, "url") {
            Some(u) => {
                let output_dir = match param_str(args, "output_dir") {
                    Some(d) => Some(owned(d)),
                    None => None,
                };
                Ok(StdioToolAction::YoutubeDownload {
                    url: owned(u),
                    quality: owned(crate::goal::param_str_or(args, "quality", "best")),
                    audio_only: param_bool_or(args, "audio_only", false),
                    output_dir,
                })
            },
            None => Err(owned("Missing 'url'")),
        }
    } else if str_eq(name, "collect_images") {
        Ok(StdioToolAction::CollectImages {
            selector: owned(crate::goal::param_str_or(args, "selector", "body")),
            min_width: param_u64_or(args, "min_width", 0),
            min_height: param_u64_or(args, "min_height", 0),
            max_images: param_u64_or(args, "max_images", 100),
            download: param_bool_or(args, "download", false),
        })
    } else {
        Err(joined2("Unknown tool: ", name))
    }
}

/// `Navigated to: <url> (<load time>ms)`, the reply to a navigation.
pub fn browse_reply(url: &str, load_time: &str) -> (r: String)
    ensures
        r@ == "Navigated to: "@ + url@ + " ("@ + load_time@ + "ms)"@,
{
    let mut r = owned("Navigated to: ");
    push_str(&mut r, url);
    push_str(&mut r, " (");
    push_str(&mut r, load_time);
    push_str(&mut r, "ms)");
    r
}

/// `<session>_<seconds>.png`, the file a screenshot is saved to.
pub fn screenshot_file_name(session: &str, secs: u64) -> (r: String)
    ensures
        r@ == session@ + "_"@ + decimal(secs as nat) + ".png"@,
{
    let mut r = owned(session);
    push_str(&mut r, "_");
    push_decimal(&mut r, secs);
    push_str(&mut r, ".png");
    r
}

/// What the `base64` crate's standard engine (`general_purpose::STANDARD`,
/// padded alphabet with `+` and `/`) decodes the text `s` to, or `None`
/// when it reports an error.
pub uninterp spec fn base64_standard_decoded(s: Seq<char>) -> Option<Seq<u8>>;

/// `base64::Engine::decode` on the standard engine; the bytes are named
/// `base64_standard_decoded`, and the error is carried as its `Display`
/// text, of which nothing is stated.
#[verifier::external_body]
fn base64_decode(s: &str) -> (r: Result<Vec<u8>, String>)
    ensures
        r is Ok <==> base64_standard_decoded(s@) is Some,
        r matches Ok(v) ==> base64_standard_decoded(s@) == Some(v@),
{
    match base64::Engine::decode(&base64::engine::general_purpose::STANDARD, s) {
        Ok(v) => Ok(v),
        Err(e) => Err(e.to_string()),
    }
}

/// The bytes of a screenshot sent as standard base64, or the error to
/// report: `Failed to decode base64: ` and the decoder's message.
pub fn decode_screenshot(image_base64: &str) -> (r: Result<Vec<u8>, String>)
    ensures
        r is Ok <==> base64_standard_decoded(image_base64@) is Some,
        r matches Ok(v) ==> base64_standard_decoded(image_base64@) == Some(v@),
        r matches Err(e) ==> starts_with_seq(e@, "Failed to decode base64: "@),
{
    match base64_decode(image_base64) {
        Ok(v) => Ok(v),
        Err(e) => {
            let mut m = owned("Failed to decode base64: ");
            push_str(&mut m, e.as_str());
            proof {
                let p = "Failed to decode base64: "@;
                assert(m@.subrange(0, p.len() as int) =~= p);
            }
            Err(m)
        },
    }
}

/// The reply to a saved screenshot: its file and its size in whole
/// kilobytes.
pub fn screenshot_saved_reply(file_name: &str, bytes: usize) -> (r: String)
    ensures
        r@ == "Screenshot saved: "@ + file_name@ + " ("@ + decimal((bytes / 1024) as nat) + "KB). Use download_file tool to retrieve."@,
{
    let mut r = owned("Screenshot saved: ");
    push_str(&mut r, file_name);
    push_str(&mut r, " (");
    push_decimal(&mut r, (bytes / 1024) as u64);
    push_str(&mut r, "KB). Use download_file tool to retrieve.");
    r
}

/// `clicked` or `click failed`.
pub fn click_reply(success: bool) -> (r: &'static str)
    ensures
        r@ == (if success { "clicked"@ } else { "click failed"@ }),
{
    if success { "clicked" } else { "click failed" }
}

/// `typed` or `type failed`.
pub fn type_reply(success: bool) -> (r: &'static str)
    ensures
        r@ == (if success { "typed"@ } else { "type failed"@ }),
{
    if success { "typed" } else { "type failed" }
}

// ---------------------------------------------------------------------------
// Resources over standard input
// ---------------------------------------------------------------------------

/// A resource read over standard input.
#[derive(Debug, Clone, PartialEq, Eq)]
pub enum StdioResource {
    /// The text of the current page.
    CurrentText,
    /// A screenshot of the current page.
    CurrentScreenshot,
    /// The list of saved screenshots.
    ScreenshotList,
    /// One saved screenshot.
    SavedScreenshot { file_name: String },
}

/// The prefix of saved-screenshot URIs.
pub const SCREENSHOTS_PREFIX: &'static str = "browser://screenshots/";

/// A saved-screenshot file name that may be read: not empty, and without
/// `..`, `/` or `\`.
pub open spec fn safe_file_name(f: Seq<char>) -> bool {
    f.len() > 0 && !contains_seq(f, ".."@) && !f.contains('/') && !f.contains('\\')
}

/// The resource a URI names, or the error answered.
pub open spec fn stdio_resource_of(uri: Seq<char>) -> Result<StdioResourceView, Seq<char>> {
    if uri == "browser://current/text"@ {
        Ok(StdioResourceView::CurrentText)
    } else if uri == "browser://current/screenshot"@ {
        Ok(StdioResourceView::CurrentScreenshot)
    } else if uri == "browser://screenshots/list"@ {
        Ok(StdioResourceView::ScreenshotList)
    } else if starts_with_seq(uri, SCREENSHOTS_PREFIX@) {
        let f = uri.subrange(SCREENSHOTS_PREFIX@.len() as int, uri.len() as int);
        if safe_file_name(f) {
            Ok(StdioResourceView::SavedScreenshot(f))
        } else {
            Err("Invalid filename"@)
        }
    } else {
        Err("Unknown resource: "@ + uri)
    }
}

/// The spec value of a resource.
pub enum StdioResourceView {
    CurrentText,
    CurrentScreenshot,
    ScreenshotList,
    SavedScreenshot(Seq<char>),
}

/// The view of a resource.
pub open spec fn resource_view(r: StdioResource) -> StdioResourceView {
    match r {
        StdioResource::CurrentText => StdioResourceView::CurrentText,
        StdioResource::CurrentScreenshot => StdioResourceView::CurrentScreenshot,
        StdioResource::ScreenshotList => StdioResourceView::ScreenshotList,
        StdioResource::SavedScreenshot { file_name } => StdioResourceView::SavedScreenshot(file_name@),
    }
}

/// Plans a resource read over standard input.
pub fn plan_stdio_resource(uri: &str) -> (r: Result<StdioResource, String>)
    ensures
        match r {
            Ok(res) => stdio_resource_of(uri@) == Ok::<StdioResourceView, Seq<char>>(resource_view(res)),
            Err(e) => stdio_resource_of(uri@) == Err::<StdioResourceView, Seq<char>>(e@),
        },
{
    if str_eq(uri, "browser://current/text") {
        return Ok(StdioResource::CurrentText);
    }
    if str_eq(uri, "browser://current/screenshot") {
        return Ok(StdioResource::CurrentScreenshot);
    }
    if str_eq(uri, "browser://screenshots/list") {
        return Ok(StdioResource::ScreenshotList);
    }
    if str_starts_with(uri, SCREENSHOTS_PREFIX) {
        let cs = crate::text::chars_of(uri);
        let prefix = crate::text::chars_of(SCREENSHOTS_PREFIX);
        let f = crate::strops::slice_chars(&cs, prefix.len(), cs.len());
        if f.unicode_len() > 0 && !str_contains(f.as_str(), "..") && !str_contains_char(f.as_str(), '/')
            && !str_contains_char(f.as_str(), '\\') {
            return Ok(StdioResource::SavedScreenshot { file_name: f });
        }
        return Err(owned("Invalid filename"));
    }
    Err(joined2("Unknown resource: ", uri))
}

/// The URI of the saved screenshot `file_name`.
pub fn screenshot_uri(file_name: &str) -> (r: String)
    ensures
        r@ == SCREENSHOTS_PREFIX@ + file_name@,
{
    joined2(SCREENSHOTS_PREFIX, file_name)
}

// ---------------------------------------------------------------------------
// Tool calls over HTTP
// ---------------------------------------------------------------------------

/// What a tool call over HTTP asks of the session.
#[derive(Debug, Clone)]
pub enum HttpToolAction {
    Navigate { url: String },
    Screenshot,
    /// Extract the text of every element matching `selector`.
    Extract { selector: String },
    Wait { selector: String, timeout_ms: u64 },
    Execute { script: String },
    GetHtml,
    GetText,
}

/// The error a tool call over HTTP is answered with, if any.
pub open spec fn http_tool_error(name: Seq<char>, pv: Seq<(Seq<char>, ParamView)>) -> Option<Seq<char>> {
    if name == "browse"@ {
        if param_str_opt(pv, "url"@) is None { Some("Missing url"@) } else { None }
    } else if name == "extract"@ || name == "wait"@ {
        if param_str_opt(pv, "selector"@) is None { Some("Missing selector"@) } else { None }
    } else if name == "execute"@ {
        if param_str_opt(pv, "script"@) is None { Some("Missing script"@) } else { None }
    } else if name == "screenshot"@ || name == "get_html"@ || name == "get_text"@ {
        None
    } else {
        Some("Unknown tool: "@ + name)
    }
}

/// `a` is the action a tool call over HTTP plans.
pub open spec fn http_tool_planned(name: Seq<char>, pv: Seq<(Seq<char>, ParamView)>, a: HttpToolAction) -> bool {
    match a {
        HttpToolAction::Navigate { url } => name == "browse"@ && param_str_opt(pv, "url"@) == Some(url@),
        HttpToolAction::Screenshot => name == "screenshot"@,
        HttpToolAction::Extract { selector } => name == "extract"@ && param_str_opt(pv, "selector"@) == Some(selector@),
        HttpToolAction::Wait { selector, timeout_ms } => name == "wait"@
            && param_str_opt(pv, "selector"@) == Some(selector@) && timeout_ms == arg_u64(pv, "timeout"@, 10000),
        HttpToolAction::Execute { script } => name == "execute"@ && param_str_opt(pv, "script"@) == Some(script@),
        HttpToolAction::GetHtml => name == "get_html"@,
        HttpToolAction::GetText => name == "get_text"@,
    }
}

/// Plans a tool call over HTTP: the command for the session, or the error
/// to answer.
pub fn plan_http_tool(name: &str, args: &Vec<(String, ParamValue)>) -> (r: Result<HttpToolAction, String>)
    ensures
        match r {
            Ok(a) => http_tool_error(name@, param_views(args@)) is None && http_tool_planned(name@, param_views(args@), a),
            Err(e) => http_tool_error(name@, param_views(args@)) == Some(e@),
        },
{
    proof {
        reveal_strlit("browse");
        assert("browse"@.len() == 6);
        reveal_strlit("screenshot");
        assert("screenshot"@.len() == 10);
        reveal_strlit("extract");
        assert("extract"@.len() == 7);
        reveal_strlit("wait");
        assert("wait"@.len() == 4);
        reveal_strlit("execute");
        assert("execute"@.len() == 7);
        reveal_strlit("get_html");
        assert("get_html"@.len() == 8);
        reveal_strlit("get_text");
        assert("get_text"@.len() == 8);
    }
    if str_eq(name, "browse") {
        match param_str(args, "url") {
            Some(u) => Ok(HttpToolAction::Navigate { url: owned(u) }),
            None => Err(owned("Missing url")),
        }
    } else if str_eq(name, "screenshot") {
        Ok(HttpToolAction::Screenshot)
    } else if str_eq(name, "extract") {
        match param_str(args, "selector") {
            Some(s) => Ok(HttpToolAction::Extract { selector: owned(s) }),
            None => Err(owned("Missing selector")),
        }
    } else if str_eq(name, "wait") {
        match param_str(args, "selector") {
            Some(s) => Ok(HttpToolAction::Wait {
                selector: owned(s),
                timeout_ms: param_u64_or(args, "timeout", 10000),
            }),
            None => Err(owned("Missing selector")),
        }
    } else if str_eq(name, "execute") {
        match param_str(args, "script") {
            Some(s) => Ok(HttpToolAction::Execute { script: owned(s) }),
            None => Err(owned("Missing script")),
        }
    } else if str_eq(name, "get_html") {
        Ok(HttpToolAction::GetHtml)
    } else if str_eq(name, "get_text") {
        Ok(HttpToolAction::GetText)
    } else {
        Err(joined2("Unknown tool: ", name))
    }
}

/// `Navigated to <url>`, the reply to a navigation over HTTP.
pub fn navigated_reply(url: &str) -> (r: String)
    ensures
        r@ == "Navigated to "@ + url@,
{
    joined2("Navigated to ", url)
}

/// `Element '<selector>' found` or `Element '<selector>' not found`.
pub fn wait_reply(selector: &str, found: bool) -> (r: String)
    ensures
        r@ == "Element '"@ + selector@ + (if found { "' found"@ } else { "' not found"@ }),
{
    let mut r = owned("Element '");
    push_str(&mut r, selector);
    if found {
        push_str(&mut r, "' found");
    } else {
        push_str(&mut r, "' not found");
    }
    r
}

} // verus!
