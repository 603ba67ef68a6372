//! Cookies imported from a desktop browser: the request and reply types, the
//! domain filter applied to the rows read from a browser's cookie store, the
//! recognition of browser profile folders, and the per-domain summary.

use vstd::prelude::*;

use crate::strops::{trim_start_char, trim_start_char_str};
use crate::text::{contains_seq, ends_with_seq, owned, starts_with_seq, str_contains,
    str_ends_with, str_eq, str_starts_with};

verus! {

/// Browsers whose cookies can be imported.
#[derive(Debug, Clone, Copy, PartialEq, Eq, Structural)]
pub enum BrowserType {
    Chrome,
    Edge,
    Firefox,
}

/// One cookie read from a browser.
#[derive(Debug, Clone)]
pub struct ImportedCookie {
    pub name: String,
    pub value: String,
    pub domain: String,
    pub path: String,
    pub secure: bool,
    pub http_only: bool,
    pub expires: Option<i64>,
}

/// Request to import cookies into a session.
#[derive(Debug, Clone)]
pub struct ImportRequest {
    pub session: String,
    pub browser: BrowserType,
    /// Only cookies of these domains; all cookies when empty.
    pub domains: Vec<String>,
    /// Browser profile to read from.
    pub profile: String,
}

/// Reply to a cookie import.
#[derive(Debug, Clone)]
pub struct ImportResponse {
    pub success: bool,
    pub session: String,
    pub browser: String,
    pub imported_count: usize,
    pub domains_found: Vec<String>,
    pub error: Option<String>,
}

/// The browser profile read unless another is named.
pub fn default_profile() -> (r: String)
    ensures
        r@ == "Default"@,
{
    owned("Default")
}

/// A cookie passes the domain filter: the filter is empty, or one of its
/// entries occurs in the cookie's domain.
pub open spec fn passes_domain_filter(domain: Seq<char>, filter: Seq<Seq<char>>) -> bool {
    filter.len() == 0 || exists|i: int| 0 <= i < filter.len() && contains_seq(domain, #[trigger] filter[i])
}

/// Whether a cookie of `domain` passes the domain filter.
pub fn matches_domain_filter(domain: &str, filter: &[String]) -> (b: bool)
    ensures
        b == passes_domain_filter(domain@, filter@.map_values(|f: String| f@)),
{
    let ghost fs = filter@.map_values(|f: String| f@);
    if filter.len() == 0 {
        return true;
    }
    let mut i: usize = 0;
    while i < filter.len()
        invariant
            i <= filter@.len(),
            fs == filter@.map_values(|f: String| f@),
            forall|j: int| 0 <= j < i ==> !contains_seq(domain@, #[trigger] fs[j]),
        decreases filter@.len() - i,
    {
        if str_contains(domain, filter[i].as_str()) {
            assert(contains_seq(domain@, fs[i as int]));
            return true;
        }
        i = i + 1;
    }
    false
}

/// The cookies that pass the domain filter, in their order.
pub open spec fn filtered_cookies(cookies: Seq<ImportedCookie>, filter: Seq<Seq<char>>) -> Seq<ImportedCookie>
    decreases cookies.len(),
{
    if cookies.len() == 0 {
        Seq::empty()
    } else {
        let head = if passes_domain_filter(cookies[0].domain@, filter) {
            seq![cookies[0]]
        } else {
            Seq::empty()
        };
        head + filtered_cookies(cookies.drop_first(), filter)
    }
}

/// Keeps the cookies that pass the domain filter, in their order.
pub fn filter_cookies(cookies: Vec<ImportedCookie>, filter: &[String]) -> (r: Vec<ImportedCookie>)
    ensures
        r@ == filtered_cookies(cookies@, filter@.map_values(|f: String| f@)),
{
    let ghost fs = filter@.map_values(|f: String| f@);
    let ghost all = cookies@;
    let mut rest = cookies;
    let mut out: Vec<ImportedCookie> = Vec::new();
    assert(out@ + filtered_cookies(rest@, fs) =~= filtered_cookies(all, fs));
    while rest.len() > 0
        invariant
            fs == filter@.map_values(|f: String| f@),
            out@ + filtered_cookies(rest@, fs) == filtered_cookies(all, fs),
        decreases rest@.len(),
    {
        let ghost before = rest@;
        let c = rest.remove(0);
        assert(rest@ =~= before.drop_first());
        let keep = matches_domain_filter(c.domain.as_str(), filter);
        if keep {
            out.push(c);
            assert(out@ + filtered_cookies(rest@, fs) =~= filtered_cookies(all, fs));
        } else {
            assert(out@ + filtered_cookies(rest@, fs) =~= filtered_cookies(all, fs));
        }
    }
    assert(out@ + filtered_cookies(rest@, fs) =~= out@);
    out
}

/// A Firefox profile folder that holds the default profile: its name ends
/// in `.default-release` or `.default`.
pub open spec fn is_firefox_default_profile_name(name: Seq<char>) -> bool {
    ends_with_seq(name, ".default-release"@) || ends_with_seq(name, ".default"@)
}

/// Whether a Firefox profile folder holds the default profile.
pub fn is_firefox_default_profile(name: &str) -> (b: bool)
    ensures
        b == is_firefox_default_profile_name(name@),
{
    str_ends_with(name, ".default-release") || str_ends_with(name, ".default")
}

/// A Chrome or Edge profile folder: `Default` or `Profile <n>`.
pub open spec fn is_chromium_profile_name(name: Seq<char>) -> bool {
    name == "Default"@ || starts_with_seq(name, "Profile "@)
}

/// Whether a folder of Chrome's or Edge's user data is a profile.
pub fn is_chromium_profile(name: &str) -> (b: bool)
    ensures
        b == is_chromium_profile_name(name@),
{
    str_eq(name, "Default") || str_starts_with(name, "Profile ")
}

/// The domain a cookie is counted under: its domain without leading dots.
pub open spec fn cookie_domain_key(c: ImportedCookie) -> Seq<char> {
    trim_start_char(c.domain@, '.')
}

/// How many of the cookies are counted under domain `d`.
pub open spec fn domain_count(cookies: Seq<ImportedCookie>, d: Seq<char>) -> nat
    decreases cookies.len(),
{
    if cookies.len() == 0 {
        0
    } else {
        domain_count(cookies.drop_last(), d) + if cookie_domain_key(cookies.last()) == d {
            1nat
        } else {
            0nat
        }
    }
}

proof fn lemma_domain_count_bound(cookies: Seq<ImportedCookie>, d: Seq<char>)
    ensures
        domain_count(cookies, d) <= cookies.len(),
    decreases cookies.len(),
{
    if cookies.len() > 0 {
        lemma_domain_count_bound(cookies.drop_last(), d);
    }
}

/// The position of the entry named `key`, if any.
fn find_entry(entries: &Vec<(String, usize)>, key: &str) -> (r: Option<usize>)
    ensures
        r matches Some(k) ==> k < entries@.len() && entries@[k as int].0@ == key@,
        r is None ==> forall|j: int| 0 <= j < entries@.len() ==> (#[trigger] entries@[j]).0@ != key@,
{
    let mut k: usize = 0;
    while k < entries.len()
        invariant
            k <= entries@.len(),
            forall|j: int| 0 <= j < k ==> (#[trigger] entries@[j]).0@ != key@,
        decreases entries@.len() - k,
    {
        if str_eq(entries[k].0.as_str(), key) {
            return Some(k);
        }
        k = k + 1;
    }
    None
}

/// Counts the cookies per domain (leading dots dropped): each domain that
/// occurs is listed once, with the number of its cookies.
pub fn summarize_cookies(cookies: &[ImportedCookie]) -> (r: Vec<(String, usize)>)
    ensures
        forall|a: int, b: int|
            0 <= a < b < r@.len() ==> (#[trigger] r@[a]).0@ != (#[trigger] r@[b]).0@,
        forall|k: int|
            0 <= k < r@.len() ==> (#[trigger] r@[k]).1 == domain_count(cookies@, r@[k].0@)
                && r@[k].1 > 0,
        forall|d: Seq<char>|
            domain_count(cookies@, d) > 0 ==> exists|k: int| 0 <= k < r@.len() && (#[trigger] r@[k]).0@ == d,
{
    let mut out: Vec<(String, usize)> = Vec::new();
    let mut i: usize = 0;
    while i < cookies.len()
        invariant
            i <= cookies@.len(),
            forall|a: int, b: int|
                0 <= a < b < out@.len() ==> (#[trigger] out@[a]).0@ != (#[trigger] out@[b]).0@,
            forall|k: int|
                0 <= k < out@.len() ==> (#[trigger] out@[k]).1 == domain_count(cookies@.take(i as int), out@[k].0@)
                    && out@[k].1 > 0,
            forall|d: Seq<char>|
                domain_count(cookies@.take(i as int), d) > 0 ==> exists|k: int|
                    0 <= k < out@.len() && (#[trigger] out@[k]).0@ == d,
        decreases cookies@.len() - i,
    {
        let key = trim_start_char_str(cookies[i].domain.as_str(), '.');
        let ghost pre = cookies@.take(i as int);
        let ghost post = cookies@.take(i + 1);
        proof {
            assert(post.drop_last() =~= pre);
            assert(post.last() == cookies@[i as int]);
            lemma_domain_count_bound(pre, key@);
        }
        let ghost old_out = out@;
        match find_entry(&out, key.as_str()) {
            Some(k) => {
                let n: usize = out[k].1;
                out.set(k, (key, n + 1));
                proof {
                    assert forall|j: int| 0 <= j < out@.len() implies (#[trigger] out@[j]).1
                        == domain_count(post, out@[j].0@) && out@[j].1 > 0 by {
                        if j != k {
                            assert(old_out[j].0@ != old_out[k as int].0@);
                        }
                    }
                    assert forall|d: Seq<char>| domain_count(post, d) > 0 implies exists|m: int|
                        0 <= m < out@.len() && (#[trigger] out@[m]).0@ == d by {
                        if domain_count(pre, d) > 0 {
                            let m = choose|m: int| 0 <= m < old_out.len() && (#[trigger] old_out[m]).0@ == d;
                            assert(out@[m].0@ == d);
                        } else {
                            assert(out@[k as int].0@ == d);
                        }
                    }
                }
            },
            None => {
                proof {
                    if domain_count(pre, key@) > 0 {
                        let m = choose|m: int| 0 <= m < old_out.len() && (#[trigger] old_out[m]).0@ == key@;
                        assert(old_out[m].0@ != key@);
                    }
                }
                out.push((key, 1));
                proof {
                    let last = out@.len() - 1;
                    assert forall|j: int| 0 <= j < out@.len() implies (#[trigger] out@[j]).1
                        == domain_count(post, out@[j].0@) && out@[j].1 > 0 by {
                        if j < last {
                            assert(old_out[j].0@ != key@);
                        }
                    }
                    assert forall|d: Seq<char>| domain_count(post, d) > 0 implies exists|m: int|
                        0 <= m < out@.len() && (#[trigger] out@[m]).0@ == d by {
                        if domain_count(pre, d) > 0 {
                            let m = choose|m: int| 0 <= m < old_out.len() && (#[trigger] old_out[m]).0@ == d;
                            assert(out@[m].0@ == d);
                        } else {
                            assert(out@[last].0@ == d);
                        }
                    }
                }
            },
        }
        i = i + 1;
    }
    assert(cookies@.take(i as int) =~= cookies@);
    out
}
/// Where a browser's data lives, relative to a base directory of the
/// machine: the local application-data directory (Chrome, Edge) or the
/// roaming one (Firefox).
#[derive(Debug, Clone, Copy, PartialEq, Eq, Structural)]
pub enum BaseDir {
    LocalData,
    RoamingData,
}

/// The user-data directory of a browser: the base directory and the path
/// components below it.
pub open spec fn user_data_path(browser: BrowserType) -> (BaseDir, Seq<Seq<char>>) {
    match browser {
        BrowserType::Chrome => (BaseDir::LocalData, seq!["Google"@, "Chrome"@, "User Data"@]),
        BrowserType::Edge => (BaseDir::LocalData, seq!["Microsoft"@, "Edge"@, "User Data"@]),
        BrowserType::Firefox => (BaseDir::RoamingData, seq!["Mozilla"@, "Firefox"@, "Profiles"@]),
    }
}

fn strings_of(parts: &[&str]) -> (r: Vec<String>)
    ensures
        r@.len() == parts@.len(),
        forall|i: int| 0 <= i < parts@.len() ==> (#[trigger] r@[i])@ == parts@[i]@,
{
    let mut r: Vec<String> = Vec::new();
    let mut i: usize = 0;
    while i < parts.len()
        invariant
            i <= parts@.len(),
            r@.len() == i,
            forall|k: int| 0 <= k < i ==> (#[trigger] r@[k])@ == parts@[k]@,
        decreases parts@.len() - i,
    {
        r.push(owned(parts[i]));
        i = i + 1;
    }
    r
}

/// The user-data directory of a browser (where its profiles are).
pub fn user_data_dir(browser: BrowserType) -> (r: (BaseDir, Vec<String>))
    ensures
        r.0 == user_data_path(browser).0,
        crate::text::views(r.1@) == user_data_path(browser).1,
{
    let r = match browser {
        BrowserType::Chrome => (BaseDir::LocalData, strings_of(&["Google", "Chrome", "User Data"])),
        BrowserType::Edge => (BaseDir::LocalData, strings_of(&["Microsoft", "Edge", "User Data"])),
        BrowserType::Firefox => (BaseDir::RoamingData, strings_of(&["Mozilla", "Firefox", "Profiles"])),
    };
    assert(crate::text::views(r.1@) =~= user_data_path(browser).1);
    r
}

/// The cookie database of a Chrome or Edge profile, below the user-data
/// directory: `<profile>/Network/Cookies`.  Firefox keeps its cookies in
/// the default profile's folder (`cookies.sqlite`), found by listing the
/// profiles.
pub fn chromium_cookie_db(profile: &str) -> (r: Vec<String>)
    ensures
        crate::text::views(r@) == seq![profile@, "Network"@, "Cookies"@],
{
    let r = strings_of(&[profile, "Network", "Cookies"]);
    assert(crate::text::views(r@) =~= seq![profile@, "Network"@, "Cookies"@]);
    r
}

/// The file that holds the cookie encryption key of a Chrome or Edge
/// installation, below its user-data directory; Firefox has none.
pub fn local_state_file(browser: BrowserType) -> (r: Option<String>)
    ensures
        match browser {
            BrowserType::Firefox => r is None,
            _ => r matches Some(f) && f@ == "Local State"@,
        },
{
    match browser {
        BrowserType::Firefox => None,
        _ => Some(owned("Local State")),
    }
}

/// The name of Firefox's cookie database in a profile folder.
pub const FIREFOX_COOKIE_DB: &'static str = "cookies.sqlite";

} // verus!
