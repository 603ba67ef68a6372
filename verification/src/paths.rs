//! Filesystem paths as the library carries them.

use vstd::prelude::*;
use crate::text::ends_with_seq;

verus! {

/// std's `PathBuf`, carried through opaquely.
#[verifier::external_type_specification]
#[verifier::external_body]
pub struct ExPathBuf(std::path::PathBuf);

/// The text of a path as std's `Path::to_string_lossy` gives it (invalid
/// sequences shown as U+FFFD).
pub uninterp spec fn path_text(p: std::path::PathBuf) -> Seq<char>;

/// The path std's `Path::join` builds from `base` and `part` on this
/// platform.
pub uninterp spec fn path_joined(base: std::path::PathBuf, part: Seq<char>) -> std::path::PathBuf;

/// A path separator on some platform.
pub open spec fn is_separator(c: char) -> bool {
    c == '/' || c == '\\'
}

/// A single plain path component: not empty, no separator or drive colon,
/// and neither `.` nor `..`.  Joining such a component never replaces or
/// rewrites the path it is joined to.
pub open spec fn plain_component(s: Seq<char>) -> bool {
    &&& s.len() > 0
    &&& forall|i: int| 0 <= i < s.len() ==> !is_separator(#[trigger] s[i]) && s[i] != ':'
    &&& s != seq!['.']
    &&& s != seq!['.', '.']
}

/// Whatever plain text `before` ends with, `after` ends with that text, one
/// separator and `part`.
pub open spec fn joined_after(after: Seq<char>, before: Seq<char>, part: Seq<char>) -> bool {
    forall|c: Seq<char>| plain_component(c) && #[trigger] ends_with_seq(before, c)
        ==> exists|sep: char| is_separator(sep) && ends_with_seq(after, c + seq![sep] + part)
}

/// The path as `Path::display` shows it (std's `Path::display` and
/// `to_string`).  Nothing is stated of the text: it depends on the platform.
#[verifier::external_body]
pub(crate) fn path_display(p: &std::path::PathBuf) -> (r: String) {
    p.display().to_string()
}

/// std's `Path::join`: `base` with `part` adjoined as a new component (see
/// `PathBuf::push`); the path is named `path_joined`.  Its text is stated only for a plain component, which is relative,
/// carries no prefix or root and is no `.`/`..` reference, so it is pushed
/// after a separator (or alone onto an empty path) on every platform: the
/// text ends with `part`, and whatever plain text `base` ended with is now
/// followed by one separator and `part`.  The separator itself, and what
/// happens to a part that is not plain, depend on the platform and are not
/// stated.
#[verifier::external_body]
pub(crate) fn path_join(base: &std::path::PathBuf, part: &str) -> (r: std::path::PathBuf)
    ensures
        r == path_joined(*base, part@),
        plain_component(part@) ==> ends_with_seq(path_text(r), part@),
        plain_component(part@) ==> joined_after(path_text(r), path_text(*base), part@),
{
    base.join(part)
}

/// std's `Path::to_string_lossy`, owned; its text is named `path_text`.
#[verifier::external_body]
pub(crate) fn path_to_string_lossy(p: &std::path::PathBuf) -> (r: String)
    ensures
        r@ == path_text(*p),
{
    p.to_string_lossy().to_string()
}

} // verus!
