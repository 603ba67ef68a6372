//! File uploads: MIME detection from the extension and validation of the
//! names used to store and serve uploaded files.

use vstd::prelude::*;
use vstd::string::*;
use std::path::PathBuf;
use vstd::utf8::encode_utf8;
use crate::paths::{is_separator, joined_after, path_join, path_joined, path_text, plain_component};
use crate::text::ends_with_seq;
use crate::text::{char_is_alphanumeric, is_alphanumeric, push_str, contains_seq, lowercase, owned, str_contains, str_contains_char, str_eq, to_lowercase, chars_of, string_of_chars};

verus! {

/// The largest upload accepted: 100 MiB.
pub const MAX_UPLOAD_SIZE: u64 = 104857600;

/// Metadata of an uploaded file.
#[derive(Debug)]
pub struct UploadedFile {
    pub upload_id: String,
    pub filename: String,
    pub stored_filename: String,
    pub size: u64,
    pub mime_type: String,
    pub session: String,
    pub file_path: PathBuf,
    pub url: String,
    pub uploaded_at: String,
}

/// The part of `s` after its last `c` (all of `s` when `c` does not occur).
pub open spec fn after_last(s: Seq<char>, c: char) -> Seq<char>
    decreases s.len(),
{
    if s.len() == 0 {
        s
    } else if s.last() == c {
        Seq::empty()
    } else {
        after_last(s.drop_last(), c).push(s.last())
    }
}

/// The upload directory of `session` under the data directory `data_dir`:
/// `uploads`, then the session.  For a plain session name its text ends
/// with `uploads`, a separator and the name.
pub fn uploads_dir(data_dir: &PathBuf, session: &str) -> (r: PathBuf)
    ensures
        r == path_joined(path_joined(*data_dir, "uploads"@), session@),
        plain_component(session@) ==> ends_with_seq(path_text(r), session@),
        plain_component(session@) ==> exists|sep: char| is_separator(sep)
            && ends_with_seq(path_text(r), "uploads"@ + seq![sep] + session@),
{
    proof {
        reveal_strlit("uploads");
        let u = seq!['u', 'p', 'l', 'o', 'a', 'd', 's'];
        assert("uploads"@ =~= u);
        assert(u.len() == 7 && u != seq!['.'] && u != seq!['.', '.']);
        assert(plain_component("uploads"@));
    }
    let base = path_join(data_dir, "uploads");
    let r = path_join(&base, session);
    proof {
        if plain_component(session@) {
            assert(ends_with_seq(path_text(base), "uploads"@));
            assert(joined_after(path_text(r), path_text(base), session@));
        }
    }
    r
}

/// The part of `s` after its last `.`.
pub fn extension_of(s: &str) -> (r: String)
    ensures
        r@ == after_last(s@, '.'),
{
    let cs = chars_of(s);
    let mut i: usize = cs.len();
    while i > 0 && cs[i - 1] != '.'
        invariant
            cs@ == s@,
            i <= cs@.len(),
            forall|k: int| i <= k < cs@.len() ==> cs@[k] != '.',
        decreases i,
    {
        i = i - 1;
    }
    let mut out: Vec<char> = Vec::new();
    let mut j: usize = i;
    while j < cs.len()
        invariant
            cs@ == s@,
            i <= j <= cs@.len(),
            out@ == cs@.subrange(i as int, j as int),
        decreases cs@.len() - j,
    {
        out.push(cs[j]);
        assert(cs@.subrange(i as int, j + 1) =~= cs@.subrange(i as int, j as int).push(cs@[j as int]));
        j = j + 1;
    }
    proof {
        lemma_after_last(s@, '.', i as int);
    }
    string_of_chars(&out)
}

/// `after_last` is the suffix after the last occurrence.
proof fn lemma_after_last(s: Seq<char>, c: char, i: int)
    requires
        0 <= i <= s.len(),
        forall|k: int| i <= k < s.len() ==> s[k] != c,
        i == 0 || s[i - 1] == c,
    ensures
        after_last(s, c) == s.subrange(i, s.len() as int),
    decreases s.len(),
{
    if s.len() == 0 {
        assert(s.subrange(i, 0) =~= s);
    } else if i == s.len() {
        assert(s.subrange(i, s.len() as int) =~= Seq::<char>::empty());
    } else {
        lemma_after_last(s.drop_last(), c, i);
        assert(s.subrange(i, s.len() as int) =~= s.drop_last().subrange(i, s.len() - 1).push(s.last()));
    }
}

/// The MIME type served for a lowercase extension.
pub open spec fn mime_for_extension(ext: Seq<char>) -> Seq<char> {
    if ext == "pdf"@ { "application/pdf"@ }
    else if ext == "png"@ { "image/png"@ }
    else if ext == "jpg"@ || ext == "jpeg"@ { "image/jpeg"@ }
    else if ext == "gif"@ { "image/gif"@ }
    else if ext == "webp"@ { "image/webp"@ }
    else if ext == "svg"@ { "image/svg+xml"@ }
    else if ext == "txt"@ { "text/plain"@ }
    else if ext == "html"@ || ext == "htm"@ { "text/html"@ }
    else if ext == "css"@ { "text/css"@ }
    else if ext == "js"@ { "application/javascript"@ }
    else if ext == "json"@ { "application/json"@ }
    else if ext == "xml"@ { "application/xml"@ }
    else if ext == "csv"@ { "text/csv"@ }
    else if ext == "zip"@ { "application/zip"@ }
    else if ext == "doc"@ { "application/msword"@ }
    else if ext == "docx"@ { "application/vnd.openxmlformats-officedocument.wordprocessingml.document"@ }
    else if ext == "xls"@ { "application/vnd.ms-excel"@ }
    else if ext == "xlsx"@ { "application/vnd.openxmlformats-officedocument.spreadsheetml.sheet"@ }
    else if ext == "mp4"@ { "video/mp4"@ }
    else if ext == "mp3"@ { "audio/mpeg"@ }
    else if ext == "wav"@ { "audio/wav"@ }
    else { "application/octet-stream"@ }
}

/// The MIME type for an already-lowercased extension.
pub fn mime_type_for_extension(ext: &str) -> (r: String)
    ensures
        r@ == mime_for_extension(ext@),
{
    let m = if str_eq(ext, "pdf") { "application/pdf" }
    else if str_eq(ext, "png") { "image/png" }
    else if str_eq(ext, "jpg") || str_eq(ext, "jpeg") { "image/jpeg" }
    else if str_eq(ext, "gif") { "image/gif" }
    else if str_eq(ext, "webp") { "image/webp" }
    else if str_eq(ext, "svg") { "image/svg+xml" }
    else if str_eq(ext, "txt") { "text/plain" }
    else if str_eq(ext, "html") || str_eq(ext, "htm") { "text/html" }
    else if str_eq(ext, "css") { "text/css" }
    else if str_eq(ext, "js") { "application/javascript" }
    else if str_eq(ext, "json") { "application/json" }
    else if str_eq(ext, "xml") { "application/xml" }
    else if str_eq(ext, "csv") { "text/csv" }
    else if str_eq(ext, "zip") { "application/zip" }
    else if str_eq(ext, "doc") { "application/msword" }
    else if str_eq(ext, "docx") { "application/vnd.openxmlformats-officedocument.wordprocessingml.document" }
    else if str_eq(ext, "xls") { "application/vnd.ms-excel" }
    else if str_eq(ext, "xlsx") { "application/vnd.openxmlformats-officedocument.spreadsheetml.sheet" }
    else if str_eq(ext, "mp4") { "video/mp4" }
    else if str_eq(ext, "mp3") { "audio/mpeg" }
    else if str_eq(ext, "wav") { "audio/wav" }
    else { "application/octet-stream" };
    owned(m)
}

/// The MIME type of a file, from the lowercased text after its last `.`
/// (`application/octet-stream` when the extension is unknown).
pub fn detect_mime_type(filename: &str) -> (r: String)
    ensures
        r@ == mime_for_extension(lowercase(after_last(filename@, '.'))),
{
    let ext = extension_of(filename);
    let lower = to_lowercase(ext.as_str());
    mime_type_for_extension(lower.as_str())
}

/// The name contains `..`, `/` or `\`.
pub open spec fn has_traversal(s: Seq<char>) -> bool {
    contains_seq(s, ".."@) || s.contains('/') || s.contains('\\')
}

/// Accepts a file name for serving: no path traversal, not empty.
pub fn validate_filename(filename: &str) -> (r: Result<(), String>)
    ensures
        has_traversal(filename@) ==> (r matches Err(e) && e@ == "Invalid filename: path traversal detected"@),
        !has_traversal(filename@) && filename@.len() == 0 ==> (r matches Err(e) && e@ == "Empty filename"@),
        r is Ok <==> !has_traversal(filename@) && filename@.len() > 0,
{
    if str_contains(filename, "..") || str_contains_char(filename, '/') || str_contains_char(filename, '\\') {
        return Err(owned("Invalid filename: path traversal detected"));
    }
    if filename.is_empty() {
        return Err(owned("Empty filename"));
    }
    Ok(())
}

/// Accepts a session name for use as a directory: not empty, no path
/// traversal.
pub fn validate_session_name(session: &str) -> (r: Result<(), String>)
    ensures
        session@.len() == 0 ==> (r matches Err(e) && e@ == "Empty session name"@),
        session@.len() > 0 && has_traversal(session@) ==> (r matches Err(e) && e@ == "Invalid session name"@),
        r is Ok <==> !has_traversal(session@) && session@.len() > 0,
{
    if session.is_empty() {
        return Err(owned("Empty session name"));
    }
    if str_contains(session, "..") || str_contains_char(session, '/') || str_contains_char(session, '\\') {
        return Err(owned("Invalid session name"));
    }
    Ok(())
}

/// The file-name part of a path: what follows its last `/` or `\`.
pub open spec fn base_name(s: Seq<char>) -> Seq<char>
    decreases s.len(),
{
    if s.len() == 0 {
        s
    } else if s.last() == '/' || s.last() == '\\' {
        Seq::empty()
    } else {
        base_name(s.drop_last()).push(s.last())
    }
}

/// A character kept in a stored file name: alphanumerics, `.`, `-`, `_`.
pub open spec fn kept_name_char(c: char) -> bool {
    is_alphanumeric(c) || c == '.' || c == '-' || c == '_'
}

/// `s` with every character that is not kept replaced by `_`.
pub open spec fn cleaned_name(s: Seq<char>) -> Seq<char> {
    s.map_values(|c: char| if kept_name_char(c) { c } else { '_' })
}

/// The longest stored file name, in bytes (before the identifier).
pub const MAX_STORED_NAME_BYTES: usize = 200;

/// The name can be cut to 200 bytes: it is not longer (its byte length as
/// `str::len` reports it), or byte 200 starts a character.
pub open spec fn cut_defined(clean: Seq<char>) -> bool {
    (encode_utf8(clean).len() as usize) <= MAX_STORED_NAME_BYTES
        || vstd::utf8::is_char_boundary(encode_utf8(clean), MAX_STORED_NAME_BYTES as int)
}

/// The stored name (before the identifier) is `n` for an upload named
/// `original`: the cleaned base name, `upload` when that is empty, `.` or
/// `..`, and its first 200 bytes when longer.
pub open spec fn stored_name_is(original: Seq<char>, n: Seq<char>) -> bool {
    let clean = cleaned_name(base_name(original));
    if clean.len() == 0 || clean == "."@ || clean == ".."@ {
        n == "upload"@
    } else if (encode_utf8(clean).len() as usize) > MAX_STORED_NAME_BYTES {
        encode_utf8(n) == encode_utf8(clean).subrange(0, MAX_STORED_NAME_BYTES as int)
    } else {
        n == clean
    }
}

/// The cleaned base name of a path.
fn cleaned_base_name(original: &str) -> (r: String)
    ensures
        r@ == cleaned_name(base_name(original@)),
{
    let cs = chars_of(original);
    let mut i: usize = cs.len();
    while i > 0 && cs[i - 1] != '/' && cs[i - 1] != '\\'
        invariant
            cs@ == original@,
            i <= cs@.len(),
            forall|k: int| i <= k < cs@.len() ==> cs@[k] != '/' && cs@[k] != '\\',
        decreases i,
    {
        i = i - 1;
    }
    proof {
        lemma_base_name(original@, i as int);
    }
    let mut out: Vec<char> = Vec::new();
    let mut j: usize = i;
    while j < cs.len()
        invariant
            cs@ == original@,
            i <= j <= cs@.len(),
            out@ == cleaned_name(cs@.subrange(i as int, j as int)),
        decreases cs@.len() - j,
    {
        let c = cs[j];
        let k = if char_is_alphanumeric(c) || c == '.' || c == '-' || c == '_' { c } else { '_' };
        out.push(k);
        assert(cs@.subrange(i as int, j + 1) =~= cs@.subrange(i as int, j as int).push(c));
        assert(out@ =~= cleaned_name(cs@.subrange(i as int, j + 1)));
        j = j + 1;
    }
    string_of_chars(&out)
}

/// `base_name` is the suffix after the last separator.
proof fn lemma_base_name(s: Seq<char>, i: int)
    requires
        0 <= i <= s.len(),
        forall|k: int| i <= k < s.len() ==> s[k] != '/' && s[k] != '\\',
        i == 0 || s[i - 1] == '/' || s[i - 1] == '\\',
    ensures
        base_name(s) == s.subrange(i, s.len() as int),
    decreases s.len(),
{
    if s.len() == 0 {
        assert(s.subrange(i, 0) =~= s);
    } else if i == s.len() {
        assert(s.subrange(i, s.len() as int) =~= Seq::<char>::empty());
    } else {
        lemma_base_name(s.drop_last(), i);
        assert(s.subrange(i, s.len() as int) =~= s.drop_last().subrange(i, s.len() - 1).push(s.last()));
    }
}

/// Whether an upload named `original` can be stored: its cleaned name can
/// be cut to 200 bytes.
pub fn can_store_filename(original: &str) -> (b: bool)
    ensures
        b == cut_defined(cleaned_name(base_name(original@))),
{
    let clean = cleaned_base_name(original);
    let s = clean.as_str();
    s.len() <= MAX_STORED_NAME_BYTES || s.is_char_boundary(MAX_STORED_NAME_BYTES)
}

/// The name an upload is stored under: eight characters of a fresh UUID,
/// `_`, and the upload's base name with unsafe characters replaced by `_`
/// (`upload` when nothing usable is left), cut to 200 bytes.
pub fn sanitize_and_store_filename(original: &str) -> (r: String)
    requires
        cut_defined(cleaned_name(base_name(original@))),
    ensures
        exists|id: Seq<char>, n: Seq<char>| id.len() == 8 && stored_name_is(original@, n) && r@ == id + "_"@ + n,
{
    let clean = cleaned_base_name(original);
    proof {
        reveal_strlit(".");
        reveal_strlit("..");
    }
    let name: String = if clean.as_str().is_empty() || str_eq(clean.as_str(), ".") || str_eq(clean.as_str(), "..") {
        owned("upload")
    } else if clean.as_str().len() > MAX_STORED_NAME_BYTES {
        let (head, _tail) = clean.as_str().split_at(MAX_STORED_NAME_BYTES);
        owned(head)
    } else {
        clean
    };
    let id = crate::ids::new_uuid_v4();
    let idc = chars_of(id.as_str());
    let short = crate::strops::slice_chars(&idc, 0, 8);
    let mut r = short;
    crate::text::push_str(&mut r, "_");
    crate::text::push_str(&mut r, name.as_str());
    assert(stored_name_is(original@, name@));
    r
}

/// The stored name of an upload, or `None` when its cleaned name cannot be
/// cut to 200 bytes.
pub fn try_sanitize_and_store_filename(original: &str) -> (r: Option<String>)
    ensures
        r is Some <==> cut_defined(cleaned_name(base_name(original@))),
        r matches Some(x) ==> exists|id: Seq<char>, n: Seq<char>| id.len() == 8 && stored_name_is(original@, n)
            && x@ == id + "_"@ + n,
{
    if can_store_filename(original) {
        Some(sanitize_and_store_filename(original))
    } else {
        None
    }
}

/// The extensions with a registered media type and that type, in the
/// form a server sends it.
pub open spec fn registered_media_types() -> Seq<(Seq<char>, Seq<char>)> {
    seq![
        ("pdf"@, "application/pdf"@),
        ("png"@, "image/png"@),
        ("jpg"@, "image/jpeg"@),
        ("jpeg"@, "image/jpeg"@),
        ("gif"@, "image/gif"@),
        ("webp"@, "image/webp"@),
        ("svg"@, "image/svg+xml"@),
        ("txt"@, "text/plain"@),
        ("html"@, "text/html"@),
        ("htm"@, "text/html"@),
        ("css"@, "text/css"@),
        ("js"@, "application/javascript"@),
        ("json"@, "application/json"@),
        ("xml"@, "application/xml"@),
        ("csv"@, "text/csv"@),
        ("zip"@, "application/zip"@),
        ("doc"@, "application/msword"@),
        ("docx"@, "application/vnd.openxmlformats-officedocument.wordprocessingml.document"@),
        ("xls"@, "application/vnd.ms-excel"@),
        ("xlsx"@, "application/vnd.openxmlformats-officedocument.spreadsheetml.sheet"@),
        ("mp4"@, "video/mp4"@),
        ("mp3"@, "audio/mpeg"@),
        ("wav"@, "audio/wav"@)
    ]
}

/// Each known extension is served as its registered media type (a PNG file
/// as `image/png`, a JPEG one as `image/jpeg`, ...); the image formats whose
/// subtype is their own extension (`png`, `gif`, `webp`) are `image/` and
/// that extension; any other extension is served as
/// `application/octet-stream`.
pub proof fn law_mime_types(ext: Seq<char>)
    ensures
        forall|i: int| 0 <= i < registered_media_types().len()
            ==> mime_for_extension(#[trigger] registered_media_types()[i].0) == registered_media_types()[i].1,
        (ext == "png"@ || ext == "gif"@ || ext == "webp"@) ==> mime_for_extension(ext) == "image/"@ + ext,
        (forall|i: int| 0 <= i < registered_media_types().len() ==> #[trigger] registered_media_types()[i].0 != ext)
            ==> mime_for_extension(ext) == "application/octet-stream"@,
{
    reveal_strlit("application/javascript");
    reveal_strlit("application/json");
    reveal_strlit("application/msword");
    reveal_strlit("application/octet-stream");
    reveal_strlit("application/pdf");
    reveal_strlit("application/vnd.ms-excel");
    reveal_strlit("application/vnd.openxmlformats-officedocument.spreadsheetml.sheet");
    reveal_strlit("application/vnd.openxmlformats-officedocument.wordprocessingml.document");
    reveal_strlit("application/xml");
    reveal_strlit("application/zip");
    reveal_strlit("audio/mpeg");
    reveal_strlit("audio/wav");
    reveal_strlit("css");
    reveal_strlit("csv");
    reveal_strlit("doc");
    reveal_strlit("docx");
    reveal_strlit("gif");
    reveal_strlit("htm");
    reveal_strlit("html");
    reveal_strlit("image/gif");
    reveal_strlit("image/jpeg");
    reveal_strlit("image/png");
    reveal_strlit("image/svg+xml");
    reveal_strlit("image/webp");
    reveal_strlit("jpeg");
    reveal_strlit("jpg");
    reveal_strlit("js");
    reveal_strlit("json");
    reveal_strlit("mp3");
    reveal_strlit("mp4");
    reveal_strlit("pdf");
    reveal_strlit("png");
    reveal_strlit("svg");
    reveal_strlit("text/css");
    reveal_strlit("text/csv");
    reveal_strlit("text/html");
    reveal_strlit("text/plain");
    reveal_strlit("txt");
    reveal_strlit("video/mp4");
    reveal_strlit("wav");
    reveal_strlit("webp");
    reveal_strlit("xls");
    reveal_strlit("xlsx");
    reveal_strlit("xml");
    reveal_strlit("zip");
    reveal_strlit("image/");
    assert("image/"@ + "png"@ =~= "image/png"@);
    assert("image/"@ + "gif"@ =~= "image/gif"@);
    assert("image/"@ + "webp"@ =~= "image/webp"@);
    let t = registered_media_types();
    assert(mime_for_extension("pdf"@) == "application/pdf"@) by {  }
    assert(t[0] == ("pdf"@, "application/pdf"@));
    assert(mime_for_extension("png"@) == "image/png"@) by { assert("pdf"@[1] != "png"@[1]); }
    assert(t[1] == ("png"@, "image/png"@));
    assert(mime_for_extension("jpg"@) == "image/jpeg"@) by { assert("pdf"@[0] != "jpg"@[0]); assert("png"@[0] != "jpg"@[0]); }
    assert(t[2] == ("jpg"@, "image/jpeg"@));
    assert(mime_for_extension("jpeg"@) == "image/jpeg"@) by { assert("pdf"@.len() != "jpeg"@.len()); assert("png"@.len() != "jpeg"@.len()); assert("jpg"@.len() != "jpeg"@.len()); }
    assert(t[3] == ("jpeg"@, "image/jpeg"@));
    assert(mime_for_extension("gif"@) == "image/gif"@) by { assert("pdf"@[0] != "gif"@[0]); assert("png"@[0] != "gif"@[0]); assert("jpg"@[0] != "gif"@[0]); assert("jpeg"@.len() != "gif"@.len()); }
    assert(t[4] == ("gif"@, "image/gif"@));
    assert(mime_for_extension("webp"@) == "image/webp"@) by { assert("pdf"@.len() != "webp"@.len()); assert("png"@.len() != "webp"@.len()); assert("jpg"@.len() != "webp"@.len()); assert("jpeg"@[0] != "webp"@[0]); assert("gif"@.len() != "webp"@.len()); }
    assert(t[5] == ("webp"@, "image/webp"@));
    assert(mime_for_extension("svg"@) == "image/svg+xml"@) by { assert("pdf"@[0] != "svg"@[0]); assert("png"@[0] != "svg"@[0]); assert("jpg"@[0] != "svg"@[0]); assert("jpeg"@.len() != "svg"@.len()); assert("gif"@[0] != "svg"@[0]); assert("webp"@.len() != "svg"@.len()); }
    assert(t[6] == ("svg"@, "image/svg+xml"@));
    assert(mime_for_extension("txt"@) == "text/plain"@) by { assert("pdf"@[0] != "txt"@[0]); assert("png"@[0] != "txt"@[0]); assert("jpg"@[0] != "txt"@[0]); assert("jpeg"@.len() != "txt"@.len()); assert("gif"@[0] != "txt"@[0]); assert("webp"@.len() != "txt"@.len()); assert("svg"@[0] != "txt"@[0]); }
    assert(t[7] == ("txt"@, "text/plain"@));
    assert(mime_for_extension("html"@) == "text/html"@) by { assert("pdf"@.len() != "html"@.len()); assert("png"@.len() != "html"@.len()); assert("jpg"@.len() != "html"@.len()); assert("jpeg"@[0] != "html"@[0]); assert("gif"@.len() != "html"@.len()); assert("webp"@[0] != "html"@[0]); assert("svg"@.len() != "html"@.len()); assert("txt"@.len() != "html"@.len()); }
    assert(t[8] == ("html"@, "text/html"@));
    assert(mime_for_extension("htm"@) == "text/html"@) by { assert("pdf"@[0] != "htm"@[0]); assert("png"@[0] != "htm"@[0]); assert("jpg"@[0] != "htm"@[0]); assert("jpeg"@.len() != "htm"@.len()); assert("gif"@[0] != "htm"@[0]); assert("webp"@.len() != "htm"@.len()); assert("svg"@[0] != "htm"@[0]); assert("txt"@[0] != "htm"@[0]); assert("html"@.len() != "htm"@.len()); }
    assert(t[9] == ("htm"@, "text/html"@));
    assert(mime_for_extension("css"@) == "text/css"@) by { assert("pdf"@[0] != "css"@[0]); assert("png"@[0] != "css"@[0]); assert("jpg"@[0] != "css"@[0]); assert("jpeg"@.len() != "css"@.len()); assert("gif"@[0] != "css"@[0]); assert("webp"@.len() != "css"@.len()); assert("svg"@[0] != "css"@[0]); assert("txt"@[0] != "css"@[0]); assert("html"@.len() != "css"@.len()); assert("htm"@[0] != "css"@[0]); }
    assert(t[10] == ("css"@, "text/css"@));
    assert(mime_for_extension("js"@) == "application/javascript"@) by { assert("pdf"@.len() != "js"@.len()); assert("png"@.len() != "js"@.len()); assert("jpg"@.len() != "js"@.len()); assert("jpeg"@.len() != "js"@.len()); assert("gif"@.len() != "js"@.len()); assert("webp"@.len() != "js"@.len()); assert("svg"@.len() != "js"@.len()); assert("txt"@.len() != "js"@.len()); assert("html"@.len() != "js"@.len()); assert("htm"@.len() != "js"@.len()); assert("css"@.len() != "js"@.len()); }
    assert(t[11] == ("js"@, "application/javascript"@));
    assert(mime_for_extension("json"@) == "application/json"@) by { assert("pdf"@.len() != "json"@.len()); assert("png"@.len() != "json"@.len()); assert("jpg"@.len() != "json"@.len()); assert("jpeg"@[1] != "json"@[1]); assert("gif"@.len() != "json"@.len()); assert("webp"@[0] != "json"@[0]); assert("svg"@.len() != "json"@.len()); assert("txt"@.len() != "json"@.len()); assert("html"@[0] != "json"@[0]); assert("htm"@.len() != "json"@.len()); assert("css"@.len() != "json"@.len()); assert("js"@.len() != "json"@.len()); }
    assert(t[12] == ("json"@, "application/json"@));
    assert(mime_for_extension("xml"@) == "application/xml"@) by { assert("pdf"@[0] != "xml"@[0]); assert("png"@[0] != "xml"@[0]); assert("jpg"@[0] != "xml"@[0]); assert("jpeg"@.len() != "xml"@.len()); assert("gif"@[0] != "xml"@[0]); assert("webp"@.len() != "xml"@.len()); assert("svg"@[0] != "xml"@[0]); assert("txt"@[0] != "xml"@[0]); assert("html"@.len() != "xml"@.len()); assert("htm"@[0] != "xml"@[0]); assert("css"@[0] != "xml"@[0]); assert("js"@.len() != "xml"@.len()); assert("json"@.len() != "xml"@.len()); }
    assert(t[13] == ("xml"@, "application/xml"@));
    assert(mime_for_extension("csv"@) == "text/csv"@) by { assert("pdf"@[0] != "csv"@[0]); assert("png"@[0] != "csv"@[0]); assert("jpg"@[0] != "csv"@[0]); assert("jpeg"@.len() != "csv"@.len()); assert("gif"@[0] != "csv"@[0]); assert("webp"@.len() != "csv"@.len()); assert("svg"@[0] != "csv"@[0]); assert("txt"@[0] != "csv"@[0]); assert("html"@.len() != "csv"@.len()); assert("htm"@[0] != "csv"@[0]); assert("css"@[2] != "csv"@[2]); assert("js"@.len() != "csv"@.len()); assert("json"@.len() != "csv"@.len()); assert("xml"@[0] != "csv"@[0]); }
    assert(t[14] == ("csv"@, "text/csv"@));
    assert(mime_for_extension("zip"@) == "application/zip"@) by { assert("pdf"@[0] != "zip"@[0]); assert("png"@[0] != "zip"@[0]); assert("jpg"@[0] != "zip"@[0]); assert("jpeg"@.len() != "zip"@.len()); assert("gif"@[0] != "zip"@[0]); assert("webp"@.len() != "zip"@.len()); assert("svg"@[0] != "zip"@[0]); assert("txt"@[0] != "zip"@[0]); assert("html"@.len() != "zip"@.len()); assert("htm"@[0] != "zip"@[0]); assert("css"@[0] != "zip"@[0]); assert("js"@.len() != "zip"@.len()); assert("json"@.len() != "zip"@.len()); assert("xml"@[0] != "zip"@[0]); assert("csv"@[0] != "zip"@[0]); }
    assert(t[15] == ("zip"@, "application/zip"@));
    assert(mime_for_extension("doc"@) == "application/msword"@) by { assert("pdf"@[0] != "doc"@[0]); assert("png"@[0] != "doc"@[0]); assert("jpg"@[0] != "doc"@[0]); assert("jpeg"@.len() != "doc"@.len()); assert("gif"@[0] != "doc"@[0]); assert("webp"@.len() != "doc"@.len()); assert("svg"@[0] != "doc"@[0]); assert("txt"@[0] != "doc"@[0]); assert("html"@.len() != "doc"@.len()); assert("htm"@[0] != "doc"@[0]); assert("css"@[0] != "doc"@[0]); assert("js"@.len() != "doc"@.len()); assert("json"@.len() != "doc"@.len()); assert("xml"@[0] != "doc"@[0]); assert("csv"@[0] != "doc"@[0]); assert("zip"@[0] != "doc"@[0]); }
    assert(t[16] == ("doc"@, "application/msword"@));
    assert(mime_for_extension("docx"@) == "application/vnd.openxmlformats-officedocument.wordprocessingml.document"@) by { assert("pdf"@.len() != "docx"@.len()); assert("png"@.len() != "docx"@.len()); assert("jpg"@.len() != "docx"@.len()); assert("jpeg"@[0] != "docx"@[0]); assert("gif"@.len() != "docx"@.len()); assert("webp"@[0] != "docx"@[0]); assert("svg"@.len() != "docx"@.len()); assert("txt"@.len() != "docx"@.len()); assert("html"@[0] != "docx"@[0]); assert("htm"@.len() != "docx"@.len()); assert("css"@.len() != "docx"@.len()); assert("js"@.len() != "docx"@.len()); assert("json"@[0] != "docx"@[0]); assert("xml"@.len() != "docx"@.len()); assert("csv"@.len() != "docx"@.len()); assert("zip"@.len() != "docx"@.len()); assert("doc"@.len() != "docx"@.len()); }
    assert(t[17] == ("docx"@, "application/vnd.openxmlformats-officedocument.wordprocessingml.document"@));
    assert(mime_for_extension("xls"@) == "application/vnd.ms-excel"@) by { assert("pdf"@[0] != "xls"@[0]); assert("png"@[0] != "xls"@[0]); assert("jpg"@[0] != "xls"@[0]); assert("jpeg"@.len() != "xls"@.len()); assert("gif"@[0] != "xls"@[0]); assert("webp"@.len() != "xls"@.len()); assert("svg"@[0] != "xls"@[0]); assert("txt"@[0] != "xls"@[0]); assert("html"@.len() != "xls"@.len()); assert("htm"@[0] != "xls"@[0]); assert("css"@[0] != "xls"@[0]); assert("js"@.len() != "xls"@.len()); assert("json"@.len() != "xls"@.len()); assert("xml"@[1] != "xls"@[1]); assert("csv"@[0] != "xls"@[0]); assert("zip"@[0] != "xls"@[0]); assert("doc"@[0] != "xls"@[0]); assert("docx"@.len() != "xls"@.len()); }
    assert(t[18] == ("xls"@, "application/vnd.ms-excel"@));
    assert(mime_for_extension("xlsx"@) == "application/vnd.openxmlformats-officedocument.spreadsheetml.sheet"@) by { assert("pdf"@.len() != "xlsx"@.len()); assert("png"@.len() != "xlsx"@.len()); assert("jpg"@.len() != "xlsx"@.len()); assert("jpeg"@[0] != "xlsx"@[0]); assert("gif"@.len() != "xlsx"@.len()); assert("webp"@[0] != "xlsx"@[0]); assert("svg"@.len() != "xlsx"@.len()); assert("txt"@.len() != "xlsx"@.len()); assert("html"@[0] != "xlsx"@[0]); assert("htm"@.len() != "xlsx"@.len()); assert("css"@.len() != "xlsx"@.len()); assert("js"@.len() != "xlsx"@.len()); assert("json"@[0] != "xlsx"@[0]); assert("xml"@.len() != "xlsx"@.len()); assert("csv"@.len() != "xlsx"@.len()); assert("zip"@.len() != "xlsx"@.len()); assert("doc"@.len() != "xlsx"@.len()); assert("docx"@[0] != "xlsx"@[0]); assert("xls"@.len() != "xlsx"@.len()); }
    assert(t[19] == ("xlsx"@, "application/vnd.openxmlformats-officedocument.spreadsheetml.sheet"@));
    assert(mime_for_extension("mp4"@) == "video/mp4"@) by { assert("pdf"@[0] != "mp4"@[0]); assert("png"@[0] != "mp4"@[0]); assert("jpg"@[0] != "mp4"@[0]); assert("jpeg"@.len() != "mp4"@.len()); assert("gif"@[0] != "mp4"@[0]); assert("webp"@.len() != "mp4"@.len()); assert("svg"@[0] != "mp4"@[0]); assert("txt"@[0] != "mp4"@[0]); assert("html"@.len() != "mp4"@.len()); assert("htm"@[0] != "mp4"@[0]); assert("css"@[0] != "mp4"@[0]); assert("js"@.len() != "mp4"@.len()); assert("json"@.len() != "mp4"@.len()); assert("xml"@[0] != "mp4"@[0]); assert("csv"@[0] != "mp4"@[0]); assert("zip"@[0] != "mp4"@[0]); assert("doc"@[0] != "mp4"@[0]); assert("docx"@.len() != "mp4"@.len()); assert("xls"@[0] != "mp4"@[0]); assert("xlsx"@.len() != "mp4"@.len()); }
    assert(t[20] == ("mp4"@, "video/mp4"@));
    assert(mime_for_extension("mp3"@) == "audio/mpeg"@) by { assert("pdf"@[0] != "mp3"@[0]); assert("png"@[0] != "mp3"@[0]); assert("jpg"@[0] != "mp3"@[0]); assert("jpeg"@.len() != "mp3"@.len()); assert("gif"@[0] != "mp3"@[0]); assert("webp"@.len() != "mp3"@.len()); assert("svg"@[0] != "mp3"@[0]); assert("txt"@[0] != "mp3"@[0]); assert("html"@.len() != "mp3"@.len()); assert("htm"@[0] != "mp3"@[0]); assert("css"@[0] != "mp3"@[0]); assert("js"@.len() != "mp3"@.len()); assert("json"@.len() != "mp3"@.len()); assert("xml"@[0] != "mp3"@[0]); assert("csv"@[0] != "mp3"@[0]); assert("zip"@[0] != "mp3"@[0]); assert("doc"@[0] != "mp3"@[0]); assert("docx"@.len() != "mp3"@.len()); assert("xls"@[0] != "mp3"@[0]); assert("xlsx"@.len() != "mp3"@.len()); assert("mp4"@[2] != "mp3"@[2]); }
    assert(t[21] == ("mp3"@, "audio/mpeg"@));
    assert(mime_for_extension("wav"@) == "audio/wav"@) by { assert("pdf"@[0] != "wav"@[0]); assert("png"@[0] != "wav"@[0]); assert("jpg"@[0] != "wav"@[0]); assert("jpeg"@.len() != "wav"@.len()); assert("gif"@[0] != "wav"@[0]); assert("webp"@.len() != "wav"@.len()); assert("svg"@[0] != "wav"@[0]); assert("txt"@[0] != "wav"@[0]); assert("html"@.len() != "wav"@.len()); assert("htm"@[0] != "wav"@[0]); assert("css"@[0] != "wav"@[0]); assert("js"@.len() != "wav"@.len()); assert("json"@.len() != "wav"@.len()); assert("xml"@[0] != "wav"@[0]); assert("csv"@[0] != "wav"@[0]); assert("zip"@[0] != "wav"@[0]); assert("doc"@[0] != "wav"@[0]); assert("docx"@.len() != "wav"@.len()); assert("xls"@[0] != "wav"@[0]); assert("xlsx"@.len() != "wav"@.len()); assert("mp4"@[0] != "wav"@[0]); assert("mp3"@[0] != "wav"@[0]); }
    assert(t[22] == ("wav"@, "audio/wav"@));
    assert forall|i: int| 0 <= i < t.len() implies mime_for_extension(#[trigger] t[i].0) == t[i].1 by {
        if i == 0 {}
        if i == 1 {}
        if i == 2 {}
        if i == 3 {}
        if i == 4 {}
        if i == 5 {}
        if i == 6 {}
        if i == 7 {}
        if i == 8 {}
        if i == 9 {}
        if i == 10 {}
        if i == 11 {}
        if i == 12 {}
        if i == 13 {}
        if i == 14 {}
        if i == 15 {}
        if i == 16 {}
        if i == 17 {}
        if i == 18 {}
        if i == 19 {}
        if i == 20 {}
        if i == 21 {}
        if i == 22 {}
    }
    if forall|i: int| 0 <= i < t.len() ==> #[trigger] t[i].0 != ext {
        assert(t[0].0 != ext); assert(t[1].0 != ext); assert(t[2].0 != ext); assert(t[3].0 != ext); assert(t[4].0 != ext); assert(t[5].0 != ext); assert(t[6].0 != ext); assert(t[7].0 != ext); assert(t[8].0 != ext); assert(t[9].0 != ext); assert(t[10].0 != ext); assert(t[11].0 != ext); assert(t[12].0 != ext); assert(t[13].0 != ext); assert(t[14].0 != ext); assert(t[15].0 != ext); assert(t[16].0 != ext); assert(t[17].0 != ext); assert(t[18].0 != ext); assert(t[19].0 != ext); assert(t[20].0 != ext); assert(t[21].0 != ext); assert(t[22].0 != ext);
    }
}

} // verus!
