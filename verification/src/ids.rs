//! Random identifiers.

use vstd::prelude::*;

verus! {

/// A lowercase hexadecimal digit.
pub open spec fn is_lower_hex(c: char) -> bool {
    ('0' <= c && c <= '9') || ('a' <= c && c <= 'f')
}

/// The hyphenated lowercase form of a version-4 UUID: 8-4-4-4-12 hexadecimal
/// digits, the version digit `4`, and a variant digit from `8` to `b`.
pub open spec fn is_uuid_v4_text(s: Seq<char>) -> bool {
    &&& s.len() == 36
    &&& forall|i: int| 0 <= i < 36 ==> if i == 8 || i == 13 || i == 18 || i == 23 {
        #[trigger] s[i] == '-'
    } else {
        is_lower_hex(s[i])
    }
    &&& s[14] == '4'
    &&& (s[19] == '8' || s[19] == '9' || s[19] == 'a' || s[19] == 'b')
}

/// A fresh random version-4 UUID in hyphenated form, from
/// `uuid::Uuid::new_v4().to_string()` (lower-case hexadecimal, version and
/// variant bits set by `new_v4`).  Of the value only that form is stated:
/// the rest is random.
#[verifier::external_body]
pub(crate) fn new_uuid_v4() -> (r: String)
    ensures
        is_uuid_v4_text(r@),
{
    uuid::Uuid::new_v4().to_string()
}

} // verus!
