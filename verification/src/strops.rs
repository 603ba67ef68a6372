//! Whole-string transformations: trimming, substring replacement and joining,
//! each specified as a recursive function over the `Seq<char>` view.

use vstd::prelude::*;

use crate::text::{occurs_at, chars_of, owned, push_char, push_str, string_of_chars, views};

verus! {

/// Whether `c` has the Unicode `White_Space` property, which std's
/// `char::is_whitespace` tests: tab to carriage return, space, next line,
/// no-break space, ogham space mark, the spaces U+2000 to U+200A, the line
/// and paragraph separators, narrow no-break space, medium mathematical
/// space and ideographic space.
pub open spec fn is_whitespace(c: char) -> bool {
    ||| ('\u{9}' <= c && c <= '\u{d}')
    ||| c == ' '
    ||| c == '\u{85}'
    ||| c == '\u{a0}'
    ||| c == '\u{1680}'
    ||| ('\u{2000}' <= c && c <= '\u{200a}')
    ||| c == '\u{2028}'
    ||| c == '\u{2029}'
    ||| c == '\u{202f}'
    ||| c == '\u{205f}'
    ||| c == '\u{3000}'
}

/// Whether `c` is whitespace, as `char::is_whitespace` tells.
pub(crate) fn char_is_whitespace(c: char) -> (b: bool)
    ensures
        b == is_whitespace(c),
{
    ('\u{9}' <= c && c <= '\u{d}') || c == ' ' || c == '\u{85}' || c == '\u{a0}' || c == '\u{1680}'
        || ('\u{2000}' <= c && c <= '\u{200a}') || c == '\u{2028}' || c == '\u{2029}' || c == '\u{202f}'
        || c == '\u{205f}' || c == '\u{3000}'
}

/// `s` without its leading whitespace.
pub open spec fn trim_start_seq(s: Seq<char>) -> Seq<char>
    decreases s.len(),
{
    if s.len() > 0 && is_whitespace(s[0]) {
        trim_start_seq(s.drop_first())
    } else {
        s
    }
}

/// `s` without its trailing whitespace.
pub open spec fn trim_end_seq(s: Seq<char>) -> Seq<char>
    decreases s.len(),
{
    if s.len() > 0 && is_whitespace(s.last()) {
        trim_end_seq(s.drop_last())
    } else {
        s
    }
}

/// `s` without leading and trailing whitespace (what `str::trim` gives).
pub open spec fn trimmed(s: Seq<char>) -> Seq<char> {
    trim_end_seq(trim_start_seq(s))
}

/// `s` without the copies of `c` at its end (what `str::trim_end_matches`
/// gives for a single character).
pub open spec fn trim_end_char(s: Seq<char>, c: char) -> Seq<char>
    decreases s.len(),
{
    if s.len() > 0 && s.last() == c {
        trim_end_char(s.drop_last(), c)
    } else {
        s
    }
}

/// `to` before each character of `s` and once more at its end (what
/// `str::replace` gives for an empty pattern, which matches between any two
/// characters and at both ends).
pub open spec fn interleaved(s: Seq<char>, to: Seq<char>) -> Seq<char>
    decreases s.len(),
{
    if s.len() == 0 {
        to
    } else {
        to + seq![s[0]] + interleaved(s.drop_first(), to)
    }
}

/// `s` with every occurrence of `from` replaced by `to`, scanning left to
/// right and never overlapping (what `str::replace` gives).
pub open spec fn replaced(s: Seq<char>, from: Seq<char>, to: Seq<char>) -> Seq<char>
    decreases s.len(),
{
    if from.len() == 0 {
        interleaved(s, to)
    } else if s.len() < from.len() {
        s
    } else if s.subrange(0, from.len() as int) == from {
        to + replaced(s.subrange(from.len() as int, s.len() as int), from, to)
    } else {
        seq![s[0]] + replaced(s.drop_first(), from, to)
    }
}

/// The parts joined with `sep` between each two neighbours (what
/// `[String]::join` gives).
pub open spec fn joined(parts: Seq<Seq<char>>, sep: Seq<char>) -> Seq<char>
    decreases parts.len(),
{
    if parts.len() == 0 {
        Seq::empty()
    } else if parts.len() == 1 {
        parts[0]
    } else {
        joined(parts.drop_last(), sep) + sep + parts.last()
    }
}

proof fn lemma_trim_start_skip(s: Seq<char>, i: int)
    requires
        0 <= i < s.len(),
        is_whitespace(s[i]),
    ensures
        trim_start_seq(s.subrange(i, s.len() as int)) == trim_start_seq(s.subrange(i + 1, s.len() as int)),
{
    let t = s.subrange(i, s.len() as int);
    assert(t.drop_first() =~= s.subrange(i + 1, s.len() as int));
}

proof fn lemma_trim_end_skip(s: Seq<char>, j: int)
    requires
        0 < j <= s.len(),
        is_whitespace(s[j - 1]),
    ensures
        trim_end_seq(s.subrange(0, j)) == trim_end_seq(s.subrange(0, j - 1)),
{
    let t = s.subrange(0, j);
    assert(t.drop_last() =~= s.subrange(0, j - 1));
}

/// `s` without leading and trailing whitespace.
pub fn trim_str(s: &str) -> (r: String)
    ensures
        r@ == trimmed(s@),
{
    let cs = chars_of(s);
    let n = cs.len();
    let mut i: usize = 0;
    assert(s@.subrange(0, n as int) =~= s@);
    while i < n && char_is_whitespace(cs[i])
        invariant
            cs@ == s@,
            n == cs@.len(),
            i <= n,
            trim_start_seq(s@) == trim_start_seq(s@.subrange(i as int, n as int)),
        decreases n - i,
    {
        proof {
            lemma_trim_start_skip(s@, i as int);
        }
        i = i + 1;
    }
    let ghost rest = s@.subrange(i as int, n as int);
    assert(trim_start_seq(s@) == rest) by {
        assert(s@.subrange(n as int, n as int).len() == 0);
    }
    let mut j: usize = n;
    while j > i && char_is_whitespace(cs[j - 1])
        invariant
            cs@ == s@,
            n == cs@.len(),
            i <= j <= n,
            rest == s@.subrange(i as int, n as int),
            trim_end_seq(rest) == trim_end_seq(s@.subrange(i as int, j as int)),
        decreases j,
    {
        proof {
            let t = s@.subrange(i as int, j as int);
            assert(t.drop_last() =~= s@.subrange(i as int, j - 1));
            assert(t.last() == s@[j - 1]);
        }
        j = j - 1;
    }
    let mut out: Vec<char> = Vec::new();
    let mut k: usize = i;
    while k < j
        invariant
            cs@ == s@,
            n == cs@.len(),
            i <= k <= j <= n,
            out@ == s@.subrange(i as int, k as int),
        decreases j - k,
    {
        out.push(cs[k]);
        assert(out@ =~= s@.subrange(i as int, k + 1));
        k = k + 1;
    }
    proof {
        let t = s@.subrange(i as int, j as int);
        assert(t.len() == 0 || !is_whitespace(t.last()));
        assert(trim_end_seq(t) == t);
    }
    string_of_chars(&out)
}

/// `s` without the copies of `c` at its end.
pub fn trim_end_char_str(s: &str, c: char) -> (r: String)
    ensures
        r@ == trim_end_char(s@, c),
{
    let cs = chars_of(s);
    let mut j: usize = cs.len();
    assert(s@.subrange(0, j as int) =~= s@);
    while j > 0 && cs[j - 1] == c
        invariant
            cs@ == s@,
            j <= cs@.len(),
            trim_end_char(s@, c) == trim_end_char(s@.subrange(0, j as int), c),
        decreases j,
    {
        proof {
            let t = s@.subrange(0, j as int);
            assert(t.drop_last() =~= s@.subrange(0, j - 1));
        }
        j = j - 1;
    }
    let mut out: Vec<char> = Vec::new();
    let mut k: usize = 0;
    while k < j
        invariant
            cs@ == s@,
            k <= j <= cs@.len(),
            out@ == s@.subrange(0, k as int),
        decreases j - k,
    {
        out.push(cs[k]);
        assert(out@ =~= s@.subrange(0, k + 1));
        k = k + 1;
    }
    proof {
        assert(s@.subrange(0, cs@.len() as int) =~= s@);
    }
    string_of_chars(&out)
}

/// Whether `p` occurs in `s` at position `i`.
fn matches_at(s: &Vec<char>, p: &Vec<char>, i: usize) -> (b: bool)
    requires
        i + p@.len() <= s@.len(),
    ensures
        b == (s@.subrange(i as int, i + p@.len()) == p@),
{
    let mut j: usize = 0;
    let sl = s.len();
    while j < p.len()
        invariant
            sl == s@.len(),
            i + p@.len() <= s@.len(),
            j <= p@.len(),
            forall|k: int| 0 <= k < j ==> s@[i + k] == p@[k],
        decreases p@.len() - j,
    {
        let idx: usize = i + j;
        if s[idx] != p[j] {
            assert(s@.subrange(i as int, i + p@.len())[j as int] != p@[j as int]);
            return false;
        }
        j = j + 1;
    }
    assert(s@.subrange(i as int, i + p@.len()) =~= p@);
    true
}

/// `s` with every occurrence of `from` replaced by `to`.
pub fn replace_str(s: &str, from: &str, to: &str) -> (r: String)
    ensures
        r@ == replaced(s@, from@, to@),
{
    let cs = chars_of(s);
    let fs = chars_of(from);
    let n = cs.len();
    let m = fs.len();
    let mut out = String::new();
    let mut i: usize = 0;
    assert(s@.subrange(0, n as int) =~= s@);
    if m == 0 {
        assert(out@ + interleaved(s@, to@) =~= interleaved(s@, to@));
        while i < n
            invariant
                cs@ == s@,
                n == cs@.len(),
                i <= n,
                out@ + interleaved(s@.subrange(i as int, n as int), to@) == interleaved(s@, to@),
            decreases n - i,
        {
            let ghost t = s@.subrange(i as int, n as int);
            let ghost before = out@;
            proof {
                assert(t.drop_first() =~= s@.subrange(i + 1, n as int));
            }
            push_str(&mut out, to);
            push_char(&mut out, cs[i]);
            proof {
                assert(out@ + interleaved(s@.subrange(i + 1, n as int), to@) =~= before + interleaved(t, to@));
            }
            i = i + 1;
        }
        proof {
            assert(s@.subrange(n as int, n as int).len() == 0);
        }
        let ghost before = out@;
        push_str(&mut out, to);
        assert(out@ =~= before + interleaved(s@.subrange(n as int, n as int), to@));
        return out;
    }
    assert(s@.subrange(0, n as int) =~= s@);
    assert(out@ + replaced(s@, from@, to@) =~= replaced(s@, from@, to@));
    while i < n
        invariant
            cs@ == s@,
            fs@ == from@,
            n == cs@.len(),
            m == fs@.len(),
            m > 0,
            i <= n,
            out@ + replaced(s@.subrange(i as int, n as int), from@, to@) == replaced(s@, from@, to@),
        decreases n - i,
    {
        let ghost t = s@.subrange(i as int, n as int);
        if n - i >= m && matches_at(&cs, &fs, i) {
            proof {
                assert(t.subrange(0, m as int) =~= s@.subrange(i as int, i + m));
                assert(t.subrange(m as int, t.len() as int) =~= s@.subrange(i + m, n as int));
                assert(out@ + to@ + replaced(s@.subrange(i + m, n as int), from@, to@)
                    =~= out@ + replaced(t, from@, to@));
            }
            push_str(&mut out, to);
            i = i + m;
        } else {
            proof {
                if t.len() >= m {
                    assert(t.subrange(0, m as int) =~= s@.subrange(i as int, i + m));
                }
                assert(t.drop_first() =~= s@.subrange(i + 1, n as int));
                if t.len() < m {
                    assert(replaced(t, from@, to@) == t);
                    assert(replaced(t.drop_first(), from@, to@) == t.drop_first()) by {
                        assert(t.drop_first().len() < m);
                    }
                    assert(t =~= seq![t[0]] + t.drop_first());
                }
                assert(out@.push(cs@[i as int]) + replaced(s@.subrange(i + 1, n as int), from@, to@)
                    =~= out@ + replaced(t, from@, to@));
            }
            push_char(&mut out, cs[i]);
            i = i + 1;
        }
    }
    proof {
        assert(s@.subrange(n as int, n as int).len() == 0);
        assert(out@ + Seq::<char>::empty() =~= out@);
    }
    out
}

/// The parts joined with `sep` between each two neighbours.
pub fn join_str(parts: &[String], sep: &str) -> (r: String)
    ensures
        r@ == joined(views(parts@), sep@),
{
    let ghost vs = views(parts@);
    if parts.len() == 0 {
        return String::new();
    }
    let mut out = owned(parts[0].as_str());
    let mut i: usize = 1;
    assert(vs.subrange(0, 1).len() == 1);
    while i < parts.len()
        invariant
            1 <= i <= parts@.len(),
            vs == views(parts@),
            out@ == joined(vs.subrange(0, i as int), sep@),
        decreases parts@.len() - i,
    {
        proof {
            let next = vs.subrange(0, i + 1);
            assert(next.drop_last() =~= vs.subrange(0, i as int));
        }
        push_str(&mut out, sep);
        push_str(&mut out, parts[i].as_str());
        i = i + 1;
    }
    assert(vs.subrange(0, parts@.len() as int) =~= vs);
    out
}

/// `i` is the first position of `c` in `s`.
pub open spec fn first_at(s: Seq<char>, c: char, i: int) -> bool {
    0 <= i < s.len() && s[i] == c && forall|j: int| 0 <= j < i ==> s[j] != c
}

/// `i` is the last position of `c` in `s`.
pub open spec fn last_at(s: Seq<char>, c: char, i: int) -> bool {
    0 <= i < s.len() && s[i] == c && forall|j: int| i < j < s.len() ==> s[j] != c
}

/// `i` is the last position at which `p` occurs in `s`.
pub open spec fn last_occurrence_at(s: Seq<char>, p: Seq<char>, i: int) -> bool {
    occurs_at(s, p, i) && forall|j: int| i < j ==> !occurs_at(s, p, j)
}

/// The first position of `c` in `s` (what `str::find` gives, counted in
/// characters).
pub open spec fn find_first(s: Seq<char>, c: char) -> Option<int> {
    if exists|i: int| first_at(s, c, i) {
        Some(choose|i: int| first_at(s, c, i))
    } else {
        None
    }
}

/// The last position of `c` in `s` (what `str::rfind` gives).
pub open spec fn find_last(s: Seq<char>, c: char) -> Option<int> {
    if exists|i: int| last_at(s, c, i) {
        Some(choose|i: int| last_at(s, c, i))
    } else {
        None
    }
}

/// The last position at which `p` occurs in `s` (what `str::rfind` gives for
/// a pattern string).
pub open spec fn find_last_seq(s: Seq<char>, p: Seq<char>) -> Option<int> {
    if exists|i: int| last_occurrence_at(s, p, i) {
        Some(choose|i: int| last_occurrence_at(s, p, i))
    } else {
        None
    }
}

/// The first position of `c` among the characters `s`.
pub fn position_first(s: &Vec<char>, c: char) -> (r: Option<usize>)
    ensures
        r == (match find_first(s@, c) {
            Some(i) => Some(i as usize),
            None => None::<usize>,
        }),
        r matches Some(i) ==> first_at(s@, c, i as int),
{
    let mut i: usize = 0;
    while i < s.len()
        invariant
            i <= s@.len(),
            forall|j: int| 0 <= j < i ==> s@[j] != c,
        decreases s@.len() - i,
    {
        if s[i] == c {
            assert(first_at(s@, c, i as int));
            proof {
                let k = choose|k: int| first_at(s@, c, k);
                assert(k == i) by {
                    if k < i {
                        assert(s@[k] != c);
                    } else if k > i {
                        assert(s@[i as int] != c);
                    }
                }
            }
            return Some(i);
        }
        i = i + 1;
    }
    assert(!exists|k: int| first_at(s@, c, k)) by {
        if exists|k: int| first_at(s@, c, k) {
            let k = choose|k: int| first_at(s@, c, k);
            assert(s@[k] != c);
        }
    }
    None
}

/// The last position of `c` among the characters `s`.
pub fn position_last(s: &Vec<char>, c: char) -> (r: Option<usize>)
    ensures
        r == (match find_last(s@, c) {
            Some(i) => Some(i as usize),
            None => None::<usize>,
        }),
        r matches Some(i) ==> last_at(s@, c, i as int),
{
    let mut i: usize = s.len();
    while i > 0
        invariant
            i <= s@.len(),
            forall|j: int| i <= j < s@.len() ==> s@[j] != c,
        decreases i,
    {
        if s[i - 1] == c {
            let k0: usize = i - 1;
            assert(last_at(s@, c, k0 as int));
            proof {
                let k = choose|k: int| last_at(s@, c, k);
                assert(k == k0) by {
                    if k < k0 {
                        assert(s@[k0 as int] != c);
                    } else if k > k0 {
                        assert(s@[k] != c);
                    }
                }
            }
            return Some(k0);
        }
        i = i - 1;
    }
    assert(!exists|k: int| last_at(s@, c, k)) by {
        if exists|k: int| last_at(s@, c, k) {
            let k = choose|k: int| last_at(s@, c, k);
            assert(s@[k] != c);
        }
    }
    None
}

/// The last position at which `p` occurs among the characters `s`.
pub fn position_last_seq(s: &Vec<char>, p: &Vec<char>) -> (r: Option<usize>)
    ensures
        r == (match find_last_seq(s@, p@) {
            Some(i) => Some(i as usize),
            None => None::<usize>,
        }),
        r matches Some(i) ==> last_occurrence_at(s@, p@, i as int),
{
    if p.len() > s.len() {
        assert(!exists|k: int| last_occurrence_at(s@, p@, k));
        return None;
    }
    let last: usize = s.len() - p.len();
    let mut i: usize = last;
    loop
        invariant
            p@.len() <= s@.len(),
            last == s@.len() - p@.len(),
            i <= last,
            forall|j: int| i < j ==> !occurs_at(s@, p@, j),
        ensures
            forall|j: int| 0 <= j ==> !occurs_at(s@, p@, j),
        decreases i,
    {
        if matches_at(s, p, i) {
            assert(last_occurrence_at(s@, p@, i as int));
            proof {
                let k = choose|k: int| last_occurrence_at(s@, p@, k);
                assert(k == i) by {
                    if k < i {
                        assert(!occurs_at(s@, p@, i as int));
                    } else if k > i {
                        assert(!occurs_at(s@, p@, k));
                    }
                }
            }
            return Some(i);
        }
        if i == 0 {
            break;
        }
        i = i - 1;
    }
    assert(!exists|k: int| last_occurrence_at(s@, p@, k)) by {
        if exists|k: int| last_occurrence_at(s@, p@, k) {
            let k = choose|k: int| last_occurrence_at(s@, p@, k);
            assert(!occurs_at(s@, p@, k));
        }
    }
    None
}

/// The characters of `s` from position `start` up to, not including, `end`.
pub fn slice_chars(s: &Vec<char>, start: usize, end: usize) -> (r: String)
    requires
        start <= end <= s@.len(),
    ensures
        r@ == s@.subrange(start as int, end as int),
{
    let mut out: Vec<char> = Vec::new();
    let mut k: usize = start;
    while k < end
        invariant
            start <= k <= end <= s@.len(),
            out@ == s@.subrange(start as int, k as int),
        decreases end - k,
    {
        out.push(s[k]);
        assert(out@ =~= s@.subrange(start as int, k + 1));
        k = k + 1;
    }
    string_of_chars(&out)
}

/// `s` without the copies of `c` at its start (what `str::trim_start_matches`
/// gives for a single character).
pub open spec fn trim_start_char(s: Seq<char>, c: char) -> Seq<char>
    decreases s.len(),
{
    if s.len() > 0 && s[0] == c {
        trim_start_char(s.drop_first(), c)
    } else {
        s
    }
}

/// `s` without the copies of `c` at its start.
pub fn trim_start_char_str(s: &str, c: char) -> (r: String)
    ensures
        r@ == trim_start_char(s@, c),
{
    let cs = chars_of(s);
    let n: usize = cs.len();
    let mut i: usize = 0;
    assert(s@.subrange(0, n as int) =~= s@);
    while i < n && cs[i] == c
        invariant
            cs@ == s@,
            n == cs@.len(),
            i <= n,
            trim_start_char(s@, c) == trim_start_char(s@.subrange(i as int, n as int), c),
        decreases n - i,
    {
        proof {
            let t = s@.subrange(i as int, n as int);
            assert(t.drop_first() =~= s@.subrange(i + 1, n as int));
        }
        i = i + 1;
    }
    let r = slice_chars(&cs, i, n);
    proof {
        let t = s@.subrange(i as int, n as int);
        assert(t.len() == 0 || t[0] != c);
    }
    r
}

} // verus!
