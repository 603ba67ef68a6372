//! Model Context Protocol over HTTP: the reply types, the resources offered,
//! and how tool and resource results become replies.

use vstd::prelude::*;

use crate::text::{owned, push_str};

verus! {

/// Identity of the MCP server.
#[derive(Debug, Clone)]
pub struct McpServerInfo {
    pub name: String,
    pub version: String,
    pub protocol_version: String,
}

/// A resource the server offers.
#[derive(Debug, Clone)]
pub struct McpResource {
    pub uri: String,
    pub name: String,
    pub description: String,
    pub mime_type: String,
}

/// Reply to a tool call.
#[derive(Debug, Clone)]
pub struct McpToolCallResponse {
    pub content: Vec<McpContent>,
    pub is_error: bool,
}

/// One piece of a tool's output: text, or data with a MIME type.
#[derive(Debug, Clone)]
pub struct McpContent {
    pub content_type: String,
    pub text: Option<String>,
    pub data: Option<String>,
    pub mime_type: Option<String>,
}

/// Request to read a resource.
#[derive(Debug, Clone)]
pub struct McpResourceRequest {
    pub uri: String,
}

/// Reply to a resource read.
#[derive(Debug, Clone)]
pub struct McpResourceResponse {
    pub contents: Vec<McpResourceContent>,
}

/// The content of a resource, as text or as a base64 blob.
#[derive(Debug, Clone)]
pub struct McpResourceContent {
    pub uri: String,
    pub mime_type: String,
    pub text: Option<String>,
    pub blob: Option<String>,
}

/// The MCP protocol version the server speaks.
pub const PROTOCOL_VERSION: &'static str = "2024-11-05";

/// The server's identity for the given package version.
pub fn server_info(version: &str) -> (r: McpServerInfo)
    ensures
        r.name@ == "webview-bridge"@,
        r.version@ == version@,
        r.protocol_version@ == PROTOCOL_VERSION@,
{
    McpServerInfo {
        name: owned("webview-bridge"),
        version: owned(version),
        protocol_version: owned(PROTOCOL_VERSION),
    }
}

/// The resources a client can read.
#[derive(Debug, Clone, Copy, PartialEq, Eq, Structural)]
pub enum ResourceKind {
    /// `browser://current/html`
    Html,
    /// `browser://current/text`
    Text,
    /// `browser://current/screenshot`
    Screenshot,
}

/// The resource a URI names.
pub open spec fn resource_kind_of(uri: Seq<char>) -> Option<ResourceKind> {
    if uri == "browser://current/html"@ {
        Some(ResourceKind::Html)
    } else if uri == "browser://current/text"@ {
        Some(ResourceKind::Text)
    } else if uri == "browser://current/screenshot"@ {
        Some(ResourceKind::Screenshot)
    } else {
        None
    }
}

/// The resource a URI names, if it names one.
pub fn resource_kind(uri: &str) -> (r: Option<ResourceKind>)
    ensures
        r == resource_kind_of(uri@),
{
    if crate::text::str_eq(uri, "browser://current/html") {
        Some(ResourceKind::Html)
    } else if crate::text::str_eq(uri, "browser://current/text") {
        Some(ResourceKind::Text)
    } else if crate::text::str_eq(uri, "browser://current/screenshot") {
        Some(ResourceKind::Screenshot)
    } else {
        None
    }
}

/// The snapshot format asked of the session for a text resource.
pub open spec fn snapshot_format_of(kind: ResourceKind) -> Option<Seq<char>> {
    match kind {
        ResourceKind::Html => Some("html"@),
        ResourceKind::Text => Some("text"@),
        ResourceKind::Screenshot => None,
    }
}

/// The MIME type of a snapshot in `format`: HTML for `html`, plain text
/// otherwise.
pub open spec fn snapshot_mime_of(format: Seq<char>) -> Seq<char> {
    if format == "html"@ {
        "text/html"@
    } else {
        "text/plain"@
    }
}

/// The MIME type of a snapshot in `format`.
pub fn snapshot_mime(format: &str) -> (r: String)
    ensures
        r@ == snapshot_mime_of(format@),
{
    if crate::text::str_eq(format, "html") {
        owned("text/html")
    } else {
        owned("text/plain")
    }
}

/// The resources offered, in the order they are listed.
pub open spec fn resource_uris() -> Seq<Seq<char>> {
    seq!["browser://current/html"@, "browser://current/text"@, "browser://current/screenshot"@]
}

fn resource(uri: &str, name: &str, description: &str, mime: &str) -> (r: McpResource)
    ensures
        r.uri@ == uri@,
        r.name@ == name@,
        r.description@ == description@,
        r.mime_type@ == mime@,
{
    McpResource { uri: owned(uri), name: owned(name), description: owned(description), mime_type: owned(mime) }
}

/// The page HTML, the page text and a screenshot of the current page.
pub fn list_resources() -> (r: Vec<McpResource>)
    ensures
        r@.len() == 3,
        forall|i: int| 0 <= i < 3 ==> (#[trigger] r@[i]).uri@ == resource_uris()[i],
        r@[0].mime_type@ == "text/html"@,
        r@[1].mime_type@ == "text/plain"@,
        r@[2].mime_type@ == "image/png"@,
        r@[0].name@ == "Current Page HTML"@,
        r@[1].name@ == "Current Page Text"@,
        r@[2].name@ == "Current Page Screenshot"@,
{
    let mut r: Vec<McpResource> = Vec::new();
    r.push(resource("browser://current/html", "Current Page HTML",
        "The HTML source of the current browser page", "text/html"));
    r.push(resource("browser://current/text", "Current Page Text",
        "The text content of the current browser page", "text/plain"));
    r.push(resource("browser://current/screenshot", "Current Page Screenshot",
        "A screenshot of the current browser page", "image/png"));
    r
}

/// A plain-text content item.
pub fn text_content(text: String) -> (r: McpContent)
    ensures
        r.content_type@ == "text"@,
        r.text == Some(text),
        r.data is None,
        r.mime_type is None,
{
    McpContent { content_type: owned("text"), text: Some(text), data: None, mime_type: None }
}

/// `prefix` followed by `message`.
pub fn prefixed(prefix: &str, message: &str) -> (r: String)
    ensures
        r@ == prefix@ + message@,
{
    let mut r = owned(prefix);
    push_str(&mut r, message);
    r
}

/// The reply to a tool call: the session could not be had (`Session error:
/// ...`), the tool failed (`Error: ...`), or its output.
pub fn tool_call_reply(session: Result<(), String>, outcome: Result<Vec<McpContent>, String>) -> (r: McpToolCallResponse)
    ensures
        match session {
            Err(e) => r.is_error && r.content@.len() == 1 && r.content@[0].text is Some
                && r.content@[0].text->0@ == "Session error: "@ + e@,
            Ok(_) => match outcome {
                Ok(c) => !r.is_error && r.content == c,
                Err(e) => r.is_error && r.content@.len() == 1 && r.content@[0].text is Some
                    && r.content@[0].text->0@ == "Error: "@ + e@,
            },
        },
        r.content@.len() == 1 && (session is Err || outcome is Err) ==> r.content@[0].content_type@ == "text"@,
{
    match session {
        Err(e) => {
            let c = text_content(prefixed("Session error: ", e.as_str()));
            McpToolCallResponse { content: vec![c], is_error: true }
        },
        Ok(_) => match outcome {
            Ok(content) => McpToolCallResponse { content, is_error: false },
            Err(e) => {
                let c = text_content(prefixed("Error: ", e.as_str()));
                McpToolCallResponse { content: vec![c], is_error: true }
            },
        },
    }
}

/// What reading a resource gave: text or a blob, with its MIME type.
pub type ResourceRead = (Option<String>, Option<String>, String);

/// The reply to a resource read: the session could not be had, the read
/// failed, or the content read.
pub fn resource_reply(uri: String, session: Result<(), String>, outcome: Result<ResourceRead, String>) -> (r: McpResourceResponse)
    ensures
        r.contents@.len() == 1,
        r.contents@[0].uri == uri,
        match session {
            Err(e) => r.contents@[0].mime_type@ == "text/plain"@ && r.contents@[0].blob is None
                && r.contents@[0].text is Some && r.contents@[0].text->0@ == "Session error: "@ + e@,
            Ok(_) => match outcome {
                Ok((text, blob, mime)) => r.contents@[0].text == text && r.contents@[0].blob == blob
                    && r.contents@[0].mime_type == mime,
                Err(e) => r.contents@[0].mime_type@ == "text/plain"@ && r.contents@[0].blob is None
                    && r.contents@[0].text is Some && r.contents@[0].text->0@ == "Error: "@ + e@,
            },
        },
{
    let content = match session {
        Err(e) => McpResourceContent {
            uri,
            mime_type: owned("text/plain"),
            text: Some(prefixed("Session error: ", e.as_str())),
            blob: None,
        },
        Ok(_) => match outcome {
            Ok((text, blob, mime_type)) => McpResourceContent { uri, mime_type, text, blob },
            Err(e) => McpResourceContent {
                uri,
                mime_type: owned("text/plain"),
                text: Some(prefixed("Error: ", e.as_str())),
                blob: None,
            },
        },
    };
    McpResourceResponse { contents: vec![content] }
}

} // verus!
