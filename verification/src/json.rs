//! JSON encoding done by serde_json, for the scripts that embed lists of
//! strings.

use vstd::prelude::*;
use crate::text::{opt_str_view, views};

verus! {

/// The lowercase hexadecimal digit for `d < 16`.
pub open spec fn json_hex_digit(d: nat) -> char {
    if d < 10 { crate::text::digit_char(d) } else if d == 10 { 'a' } else if d == 11 { 'b' }
    else if d == 12 { 'c' } else if d == 13 { 'd' } else if d == 14 { 'e' } else { 'f' }
}

/// How serde_json writes one character inside a JSON string: `"` and `\`
/// escaped with a backslash, backspace, tab, line feed, form feed and
/// carriage return as `\b`, `\t`, `\n`, `\f`, `\r`, the other control
/// characters below U+0020 as `\u00XX` in lowercase hexadecimal, and every
/// other character as itself.
pub open spec fn json_escaped_char(c: char) -> Seq<char> {
    if c == '"' {
        seq!['\\', '"']
    } else if c == '\\' {
        seq!['\\', '\\']
    } else if c == '\u{8}' {
        seq!['\\', 'b']
    } else if c == '\t' {
        seq!['\\', 't']
    } else if c == '\n' {
        seq!['\\', 'n']
    } else if c == '\u{c}' {
        seq!['\\', 'f']
    } else if c == '\r' {
        seq!['\\', 'r']
    } else if (c as u32) < 0x20 {
        seq!['\\', 'u', '0', '0', json_hex_digit((c as u32 / 16) as nat), json_hex_digit((c as u32 % 16) as nat)]
    } else {
        seq![c]
    }
}

/// The characters of `s`, each written as inside a JSON string.
pub open spec fn json_escaped(s: Seq<char>) -> Seq<char>
    decreases s.len(),
{
    if s.len() == 0 { Seq::empty() } else { json_escaped(s.drop_last()) + json_escaped_char(s.last()) }
}

/// The JSON string literal of `s`: its escaped characters between double
/// quotes.
pub open spec fn json_quoted(s: Seq<char>) -> Seq<char> {
    seq!['"'] + json_escaped(s) + seq!['"']
}

/// The JSON string literals of `items`, separated by commas.
pub open spec fn json_quoted_list(items: Seq<Seq<char>>) -> Seq<char>
    decreases items.len(),
{
    if items.len() == 0 {
        Seq::empty()
    } else if items.len() == 1 {
        json_quoted(items[0])
    } else {
        json_quoted_list(items.drop_last()) + seq![','] + json_quoted(items.last())
    }
}

/// What `serde_json::to_string` gives for a list of strings: the JSON array
/// of their literals, with no spaces.  Serialising strings never fails.
pub open spec fn json_string_array(items: Seq<Seq<char>>) -> Option<Seq<char>> {
    Some(seq!['['] + json_quoted_list(items) + seq![']'])
}

/// Encodes `items` as a JSON array with `serde_json::to_string` (compact
/// formatter: `[`, the string literals separated by `,`, `]`).
#[verifier::external_body]
pub(crate) fn to_json_string_array(items: &[String]) -> (r: Option<String>)
    ensures
        opt_str_view(r) == json_string_array(views(items@)),
{
    match serde_json::to_string(items) {
        Ok(s) => Some(s),
        Err(_) => None,
    }
}

/// What `serde_json::to_string` gives for one string: its JSON string
/// literal.  Serialising a string never fails.
pub open spec fn json_string_literal(s: Seq<char>) -> Option<Seq<char>> {
    Some(json_quoted(s))
}

/// Encodes `s` as a JSON string literal with `serde_json::to_string`
/// (`format_escaped_str`: see `json_escaped_char`).
#[verifier::external_body]
pub(crate) fn to_json_string(s: &str) -> (r: Option<String>)
    ensures
        opt_str_view(r) == json_string_literal(s@),
{
    match serde_json::to_string(s) {
        Ok(j) => Some(j),
        Err(_) => None,
    }
}

/// `"key":value` for a parameter whose value is JSON text.
pub open spec fn json_member(p: (Seq<char>, Seq<char>)) -> Seq<char> {
    json_string_literal(p.0)->0 + ":"@ + p.1
}

/// The members of a JSON object, separated by commas.
pub open spec fn json_members(ps: Seq<(Seq<char>, Seq<char>)>) -> Seq<char>
    decreases ps.len(),
{
    if ps.len() == 0 {
        Seq::empty()
    } else if ps.len() == 1 {
        json_member(ps[0])
    } else {
        json_members(ps.drop_last()) + ","@ + json_member(ps.last())
    }
}

/// The JSON object with the given members (values already JSON text), or
/// `{}` when a key cannot be encoded.
pub open spec fn json_object(ps: Seq<(Seq<char>, Seq<char>)>) -> Seq<char> {
    if forall|i: int| 0 <= i < ps.len() ==> (json_string_literal(#[trigger] ps[i].0) is Some) {
        "{"@ + json_members(ps) + "}"@
    } else {
        "{}"@
    }
}

/// The JSON object with members `params` (keys encoded, values given as
/// JSON text).
pub fn params_json_object(params: &Vec<(String, String)>) -> (r: String)
    ensures
        r@ == json_object(params@.map_values(|p: (String, String)| (p.0@, p.1@))),
{
    let ghost ps = params@.map_values(|p: (String, String)| (p.0@, p.1@));
    let mut body = String::new();
    let mut i: usize = 0;
    while i < params.len()
        invariant
            i <= params@.len(),
            ps == params@.map_values(|p: (String, String)| (p.0@, p.1@)),
            forall|k: int| 0 <= k < i ==> (json_string_literal(#[trigger] ps[k].0) is Some),
            body@ == json_members(ps.take(i as int)),
        decreases params@.len() - i,
    {
        let key = match to_json_string(params[i].0.as_str()) {
            Some(k) => k,
            None => {
                assert(ps[i as int] == (params@[i as int].0@, params@[i as int].1@));
                assert(json_string_literal(ps[i as int].0) is None);
                return crate::text::owned("{}");
            },
        };
        assert(ps.take(i + 1).drop_last() =~= ps.take(i as int));
        assert(ps[i as int] == (params@[i as int].0@, params@[i as int].1@));
        if i > 0 {
            crate::text::push_str(&mut body, ",");
        }
        crate::text::push_str(&mut body, key.as_str());
        crate::text::push_str(&mut body, ":");
        crate::text::push_str(&mut body, params[i].1.as_str());
        proof {
            if i == 0 {
                assert(ps.take(1).len() == 1);
                assert(body@ =~= json_members(ps.take(1)));
            } else {
                assert(body@ =~= json_members(ps.take(i + 1)));
            }
        }
        i = i + 1;
    }
    assert(ps.take(i as int) =~= ps);
    let mut r = crate::text::owned("{");
    crate::text::push_str(&mut r, body.as_str());
    crate::text::push_str(&mut r, "}");
    r
}

/// The JSON array of `items`, or `[]` when it cannot be encoded.
pub open spec fn json_or_empty(items: Seq<Seq<char>>) -> Seq<char> {
    match json_string_array(items) {
        Some(j) => j,
        None => "[]"@,
    }
}

/// The JSON array of `items`, or `[]` when it cannot be encoded.
pub fn selectors_json(items: &[String]) -> (r: String)
    ensures
        r@ == json_or_empty(views(items@)),
{
    match to_json_string_array(items) {
        Some(j) => j,
        None => crate::text::owned("[]"),
    }
}

} // verus!
