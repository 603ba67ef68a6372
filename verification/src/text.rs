//! Character-sequence utilities shared by the script and command builders:
//! escaping, searching, comparison and decimal formatting, each specified
//! over the `Seq<char>` view of the strings involved.

use vstd::prelude::*;
use vstd::string::*;
use vstd::std_specs::iter::IteratorSpec;

verus! {

// ---------------------------------------------------------------------------
// Specifications
// ---------------------------------------------------------------------------

/// `s` with every double quote preceded by a backslash (`"` becomes `\"`).
pub open spec fn escape_quotes(s: Seq<char>) -> Seq<char>
    decreases s.len(),
{
    if s.len() == 0 {
        Seq::empty()
    } else {
        let head = if s[0] == '"' { seq!['\\', '"'] } else { seq![s[0]] };
        head + escape_quotes(s.drop_first())
    }
}

/// `p` occurs in `s` starting at position `i`.
pub open spec fn occurs_at(s: Seq<char>, p: Seq<char>, i: int) -> bool {
    0 <= i && i + p.len() <= s.len() && s.subrange(i, i + p.len()) == p
}

/// `p` occurs somewhere in `s` (the empty sequence occurs in every sequence).
pub open spec fn contains_seq(s: Seq<char>, p: Seq<char>) -> bool {
    exists|i: int| occurs_at(s, p, i)
}

/// `p` is a prefix of `s`.
pub open spec fn starts_with_seq(s: Seq<char>, p: Seq<char>) -> bool {
    occurs_at(s, p, 0)
}

/// `p` is a suffix of `s`.
pub open spec fn ends_with_seq(s: Seq<char>, p: Seq<char>) -> bool {
    p.len() <= s.len() && occurs_at(s, p, s.len() - p.len())
}

/// The decimal digit character for `d < 10`.
pub open spec fn digit_char(d: nat) -> char {
    if d == 0 { '0' }
    else if d == 1 { '1' }
    else if d == 2 { '2' }
    else if d == 3 { '3' }
    else if d == 4 { '4' }
    else if d == 5 { '5' }
    else if d == 6 { '6' }
    else if d == 7 { '7' }
    else if d == 8 { '8' }
    else { '9' }
}

/// The shortest decimal representation of `n` (no sign, no leading zeros).
pub open spec fn decimal(n: nat) -> Seq<char>
    decreases n,
{
    if n < 10 {
        seq![digit_char(n)]
    } else {
        decimal(n / 10).push(digit_char(n % 10))
    }
}

/// The decimal representation of `n`, left-padded with zeros to at least
/// `width` characters (as `format!("{:0width$}", n)` prints it).
pub open spec fn decimal_padded(n: nat, width: nat) -> Seq<char> {
    let d = decimal(n);
    if d.len() >= width {
        d
    } else {
        Seq::new((width - d.len()) as nat, |i: int| '0') + d
    }
}

/// The decimal representation of a signed integer (`-` before negatives).
pub open spec fn signed_decimal(n: int) -> Seq<char> {
    if n < 0 {
        seq!['-'] + decimal((-n) as nat)
    } else {
        decimal(n as nat)
    }
}

/// ASCII lowercase of one character; other characters are kept.
pub open spec fn ascii_lower_char(c: char) -> char {
    if 'A' <= c && c <= 'Z' {
        ((c as u32) + 32) as char
    } else {
        c
    }
}

/// Two sequences are equal when compared ASCII-case-insensitively.
pub open spec fn eq_ignore_ascii_case_seq(a: Seq<char>, b: Seq<char>) -> bool {
    a.len() == b.len() && forall|i: int| 0 <= i < a.len() ==> ascii_lower_char(a[i]) == ascii_lower_char(b[i])
}

/// The views of a list of strings.
pub open spec fn views(v: Seq<String>) -> Seq<Seq<char>> {
    v.map_values(|s: String| s@)
}

/// The view of an optional string.
pub open spec fn opt_str_view(o: Option<String>) -> Option<Seq<char>> {
    match o {
        Some(s) => Some(s@),
        None => None,
    }
}

/// Lexicographic order on character sequences, by code point (the order of
/// std's `String` comparison, UTF-8 preserving code-point order).
pub open spec fn seq_lt(a: Seq<char>, b: Seq<char>) -> bool
    decreases a.len(),
{
    if a.len() == 0 {
        b.len() > 0
    } else if b.len() == 0 {
        false
    } else if a[0] < b[0] {
        true
    } else if a[0] == b[0] {
        seq_lt(a.drop_first(), b.drop_first())
    } else {
        false
    }
}

/// `a` does not come after `b`.
pub open spec fn seq_le(a: Seq<char>, b: Seq<char>) -> bool {
    !seq_lt(b, a)
}

/// The order is irreflexive.
pub proof fn lemma_seq_lt_irreflexive(a: Seq<char>)
    ensures
        !seq_lt(a, a),
    decreases a.len(),
{
    if a.len() > 0 {
        lemma_seq_lt_irreflexive(a.drop_first());
    }
}

/// The order is transitive.
pub proof fn lemma_seq_lt_transitive(a: Seq<char>, b: Seq<char>, c: Seq<char>)
    requires
        seq_lt(a, b),
        seq_lt(b, c),
    ensures
        seq_lt(a, c),
    decreases a.len(),
{
    if a.len() > 0 && b.len() > 0 && c.len() > 0 && a[0] == b[0] && b[0] == c[0] {
        lemma_seq_lt_transitive(a.drop_first(), b.drop_first(), c.drop_first());
    }
}

/// Distinct sequences are ordered one way or the other.
pub proof fn lemma_seq_lt_total(a: Seq<char>, b: Seq<char>)
    requires
        a != b,
    ensures
        seq_lt(a, b) || seq_lt(b, a),
    decreases a.len(),
{
    if a.len() > 0 && b.len() > 0 && a[0] == b[0] {
        if a.drop_first() == b.drop_first() {
            assert(a =~= seq![a[0]] + a.drop_first());
            assert(b =~= seq![b[0]] + b.drop_first());
        }
        lemma_seq_lt_total(a.drop_first(), b.drop_first());
    } else if a.len() == 0 && b.len() == 0 {
        assert(a =~= b);
    }
}

/// The order is asymmetric.
pub proof fn lemma_seq_lt_asymmetric(a: Seq<char>, b: Seq<char>)
    requires
        seq_lt(a, b),
    ensures
        !seq_lt(b, a),
{
    if seq_lt(b, a) {
        lemma_seq_lt_transitive(a, b, a);
        lemma_seq_lt_irreflexive(a);
    }
}

// ---------------------------------------------------------------------------
// Lemmas
// ---------------------------------------------------------------------------

/// Escaping distributes over concatenation.
pub proof fn lemma_escape_quotes_append(a: Seq<char>, b: Seq<char>)
    ensures
        escape_quotes(a + b) == escape_quotes(a) + escape_quotes(b),
    decreases a.len(),
{
    if a.len() == 0 {
        assert(a + b =~= b);
    } else {
        lemma_escape_quotes_append(a.drop_first(), b);
        assert((a + b).drop_first() =~= a.drop_first() + b);
    }
}

/// Escaping a single character.
pub proof fn lemma_escape_quotes_single(c: char)
    ensures
        escape_quotes(seq![c]) == (if c == '"' { seq!['\\', '"'] } else { seq![c] }),
{
    assert(seq![c].drop_first() =~= Seq::<char>::empty());
    reveal_with_fuel(escape_quotes, 2);
    if c == '"' {
        assert(seq!['\\', '"'] + Seq::<char>::empty() =~= seq!['\\', '"']);
    } else {
        assert(seq![c] + Seq::<char>::empty() =~= seq![c]);
    }
}

/// A string without double quotes is left unchanged by escaping.
pub proof fn lemma_escape_quotes_no_quotes(s: Seq<char>)
    requires
        !s.contains('"'),
    ensures
        escape_quotes(s) == s,
    decreases s.len(),
{
    if s.len() > 0 {
        assert(!s.drop_first().contains('"')) by {
            if s.drop_first().contains('"') {
                let k = choose|k: int| 0 <= k < s.drop_first().len() && s.drop_first()[k] == '"';
                assert(s[k + 1] == '"');
            }
        }
        lemma_escape_quotes_no_quotes(s.drop_first());
        assert(s[0] != '"');
        assert(seq![s[0]] + s.drop_first() =~= s);
    }
}

/// The decimal representation is never empty.
pub proof fn lemma_decimal_nonempty(n: nat)
    ensures
        decimal(n).len() >= 1,
    decreases n,
{
    if n >= 10 {
        lemma_decimal_nonempty(n / 10);
    }
}

/// Whether std classifies a non-ASCII `c` as alphanumeric
/// (`char::is_alphanumeric`: alphabetic or numeric in Unicode's sense).
pub uninterp spec fn non_ascii_alphanumeric(c: char) -> bool;

/// Whether std classifies `c` as alphanumeric: among ASCII characters
/// exactly the letters and digits, as std documents (`is_alphabetic` and
/// `is_numeric` agree with `is_ascii_alphabetic` and `is_ascii_digit`
/// there); beyond ASCII, `non_ascii_alphanumeric`.
pub open spec fn is_alphanumeric(c: char) -> bool {
    if (c as u32) < 128 { ascii_alphanumeric(c) } else { non_ascii_alphanumeric(c) }
}

/// What std's `str::to_lowercase` gives for `s` (Unicode lowercase mapping).
pub uninterp spec fn lowercase(s: Seq<char>) -> Seq<char>;

/// An ASCII letter or digit.
pub open spec fn ascii_alphanumeric(c: char) -> bool {
    ('a' <= c && c <= 'z') || ('A' <= c && c <= 'Z') || ('0' <= c && c <= '9')
}

/// std's `char::is_alphanumeric`: ASCII letters and digits, and beyond
/// ASCII what is named `non_ascii_alphanumeric`.
#[verifier::external_body]
pub(crate) fn char_is_alphanumeric(c: char) -> (b: bool)
    ensures
        b == (if (c as u32) < 128 { ascii_alphanumeric(c) } else { non_ascii_alphanumeric(c) }),
{
    c.is_alphanumeric()
}

/// std's `str::to_lowercase`; its result is named `lowercase`.
#[verifier::external_body]
pub(crate) fn to_lowercase(s: &str) -> (r: String)
    ensures
        r@ == lowercase(s@),
{
    s.to_lowercase()
}

// ---------------------------------------------------------------------------
// Executable helpers
// ---------------------------------------------------------------------------

/// Appends one character to a string (std's `String::push`).
#[verifier::external_body]
pub(crate) fn push_char(s: &mut String, c: char)
    ensures
        final(s)@ == old(s)@.push(c),
{
    s.push(c);
}

/// The characters of `s`, in order.
pub fn chars_of(s: &str) -> (v: Vec<char>)
    ensures
        v@ == s@,
{
    broadcast use vstd::string::group_string_axioms;

    let mut v: Vec<char> = Vec::new();
    let mut it = s.chars();
    assert(it.remaining() == s@);
    loop
        invariant
            v@ + it.remaining() == s@,
            it.obeys_prophetic_iter_laws(),
            it.decrease() is Some,
        ensures
            v@ == s@,
        decreases it.decrease()->0,
    {
        let ghost before = it;
        match it.next() {
            Some(c) => {
                proof {
                    assert(before.remaining().len() > 0);
                    assert(v@.push(c) + it.remaining() =~= v@ + before.remaining());
                }
                v.push(c);
            },
            None => {
                assert(v@ =~= s@);
                break ;
            },
        }
    }
    v
}

/// A `String` holding exactly the characters of `v`.
pub fn string_of_chars(v: &Vec<char>) -> (r: String)
    ensures
        r@ == v@,
{
    let mut r = String::new();
    let mut i: usize = 0;
    while i < v.len()
        invariant
            i <= v@.len(),
            r@ == v@.take(i as int),
        decreases v@.len() - i,
    {
        push_char(&mut r, v[i]);
        assert(v@.take(i + 1) =~= v@.take(i as int).push(v@[i as int]));
        i = i + 1;
    }
    assert(v@.take(i as int) =~= v@);
    r
}

/// A fresh `String` with the characters of `s`.
pub fn owned(s: &str) -> (r: String)
    ensures
        r@ == s@,
{
    String::from_str(s)
}

/// Appends `t` to `s`.
pub fn push_str(s: &mut String, t: &str)
    ensures
        final(s)@ == old(s)@ + t@,
{
    s.append(t);
}

/// Escapes every double quote of `s` with a backslash, so that `s` can be
/// embedded inside a double-quoted JavaScript string literal.
pub fn escape_quotes_str(s: &str) -> (r: String)
    ensures
        r@ == escape_quotes(s@),
{
    let cs = chars_of(s);
    let mut r = String::new();
    let mut i: usize = 0;
    while i < cs.len()
        invariant
            i <= cs@.len(),
            r@ == escape_quotes(cs@.take(i as int)),
        decreases cs@.len() - i,
    {
        let c = cs[i];
        proof {
            lemma_escape_quotes_append(cs@.take(i as int), seq![c]);
            assert(cs@.take(i + 1) =~= cs@.take(i as int) + seq![c]);
            lemma_escape_quotes_single(c);
        }
        if c == '"' {
            push_char(&mut r, '\\');
        }
        push_char(&mut r, c);
        i = i + 1;
    }
    assert(cs@.take(i as int) =~= s@);
    r
}

/// Whether `p` occurs in `s` at position `i` (both given as characters).
fn chars_match_at(s: &Vec<char>, p: &Vec<char>, i: usize) -> (b: bool)
    requires
        i + p@.len() <= s@.len(),
    ensures
        b == (s@.subrange(i as int, i + p@.len()) == p@),
{
    let mut j: usize = 0;
    while j < p.len()
        invariant
            i + p@.len() <= s@.len(),
            j <= p@.len(),
            forall|k: int| 0 <= k < j ==> s@[i + k] == p@[k],
        decreases p@.len() - j,
    {
        assert(i + j < s.len());
        let idx: usize = i + j;
        if s[idx] != p[j] {
            assert(s@.subrange(i as int, i + p@.len())[j as int] != p@[j as int]);
            return false;
        }
        j = j + 1;
    }
    assert(s@.subrange(i as int, i + p@.len()) =~= p@);
    true
}

/// Whether the characters `p` occur in the characters `s`.
pub fn chars_contain(s: &Vec<char>, p: &Vec<char>) -> (b: bool)
    ensures
        b == contains_seq(s@, p@),
{
    if p.len() > s.len() {
        return false;
    }
    if p.len() == 0 {
        assert(s@.subrange(0, 0) =~= p@);
        assert(occurs_at(s@, p@, 0));
        return true;
    }
    let last = s.len() - p.len();
    let mut i: usize = 0;
    while i <= last
        invariant
            last == s@.len() - p@.len(),
            1 <= p@.len() <= s@.len(),
            last < s.len(),
            forall|k: int| 0 <= k < i ==> !occurs_at(s@, p@, k),
        decreases last + 1 - i,
    {
        if chars_match_at(s, p, i) {
            assert(occurs_at(s@, p@, i as int));
            return true;
        }
        i = i + 1;
    }
    false
}

/// Whether `p` occurs in `s`.
pub fn str_contains(s: &str, p: &str) -> (b: bool)
    ensures
        b == contains_seq(s@, p@),
{
    let sc = chars_of(s);
    let pc = chars_of(p);
    chars_contain(&sc, &pc)
}

/// Whether the character `c` occurs in `s`.
pub fn str_contains_char(s: &str, c: char) -> (b: bool)
    ensures
        b == s@.contains(c),
{
    let sc = chars_of(s);
    let mut i: usize = 0;
    while i < sc.len()
        invariant
            sc@ == s@,
            i <= sc@.len(),
            forall|k: int| 0 <= k < i ==> sc@[k] != c,
        decreases sc@.len() - i,
    {
        if sc[i] == c {
            return true;
        }
        i = i + 1;
    }
    false
}

/// Whether `s` begins with `p`.
pub fn str_starts_with(s: &str, p: &str) -> (b: bool)
    ensures
        b == starts_with_seq(s@, p@),
{
    let sc = chars_of(s);
    let pc = chars_of(p);
    if pc.len() > sc.len() {
        return false;
    }
    chars_match_at(&sc, &pc, 0)
}

/// Whether `s` ends with `p`.
pub fn str_ends_with(s: &str, p: &str) -> (b: bool)
    ensures
        b == ends_with_seq(s@, p@),
{
    let sc = chars_of(s);
    let pc = chars_of(p);
    if pc.len() > sc.len() {
        return false;
    }
    chars_match_at(&sc, &pc, sc.len() - pc.len())
}

/// Whether `a` and `b` hold the same characters.
pub fn str_eq(a: &str, b: &str) -> (r: bool)
    ensures
        r == (a@ == b@),
{
    let ac = chars_of(a);
    let bc = chars_of(b);
    if ac.len() != bc.len() {
        return false;
    }
    let mut i: usize = 0;
    while i < ac.len()
        invariant
            ac@ == a@,
            bc@ == b@,
            ac@.len() == bc@.len(),
            i <= ac@.len(),
            forall|k: int| 0 <= k < i ==> ac@[k] == bc@[k],
        decreases ac@.len() - i,
    {
        if ac[i] != bc[i] {
            return false;
        }
        i = i + 1;
    }
    assert(ac@ =~= bc@);
    true
}

/// Whether `a` comes before `b` in code-point order.
pub fn str_lt(a: &str, b: &str) -> (r: bool)
    ensures
        r == seq_lt(a@, b@),
{
    let ac = chars_of(a);
    let bc = chars_of(b);
    let mut i: usize = 0;
    assert(ac@.skip(0) =~= ac@);
    assert(bc@.skip(0) =~= bc@);
    loop
        invariant
            ac@ == a@,
            bc@ == b@,
            i <= ac@.len(),
            i <= bc@.len(),
            seq_lt(a@, b@) == seq_lt(ac@.skip(i as int), bc@.skip(i as int)),
        decreases ac@.len() - i,
    {
        if i == ac.len() {
            return i < bc.len();
        }
        if i == bc.len() {
            return false;
        }
        let x = ac[i];
        let y = bc[i];
        assert(ac@.skip(i as int)[0] == x && bc@.skip(i as int)[0] == y);
        if x < y {
            return true;
        }
        if x != y {
            return false;
        }
        assert(ac@.skip(i as int).drop_first() =~= ac@.skip(i + 1));
        assert(bc@.skip(i as int).drop_first() =~= bc@.skip(i + 1));
        i = i + 1;
    }
}

/// ASCII lowercase of one character.
pub fn to_ascii_lower_char(c: char) -> (r: char)
    ensures
        r == ascii_lower_char(c),
{
    if 'A' <= c && c <= 'Z' {
        let u: u32 = (c as u32) + 32;
        proof {
            assert(u <= 0x7f);
        }
        char_from_ascii(u)
    } else {
        c
    }
}

/// The character with the given ASCII code.
fn char_from_ascii(u: u32) -> (c: char)
    requires
        u < 128,
    ensures
        c == u as char,
{
    let b: u8 = u as u8;
    b as char
}

/// Whether `a` and `b` are equal ignoring ASCII case (std's
/// `str::eq_ignore_ascii_case`).
pub fn str_eq_ignore_ascii_case(a: &str, b: &str) -> (r: bool)
    ensures
        r == eq_ignore_ascii_case_seq(a@, b@),
{
    let ac = chars_of(a);
    let bc = chars_of(b);
    if ac.len() != bc.len() {
        return false;
    }
    let mut i: usize = 0;
    while i < ac.len()
        invariant
            ac@ == a@,
            bc@ == b@,
            ac@.len() == bc@.len(),
            i <= ac@.len(),
            forall|k: int| 0 <= k < i ==> ascii_lower_char(ac@[k]) == ascii_lower_char(bc@[k]),
        decreases ac@.len() - i,
    {
        if to_ascii_lower_char(ac[i]) != to_ascii_lower_char(bc[i]) {
            return false;
        }
        i = i + 1;
    }
    true
}

/// The digit character for `d`.
pub fn digit_to_char(d: u64) -> (c: char)
    requires
        d < 10,
    ensures
        c == digit_char(d as nat),
{
    if d == 0 { '0' }
    else if d == 1 { '1' }
    else if d == 2 { '2' }
    else if d == 3 { '3' }
    else if d == 4 { '4' }
    else if d == 5 { '5' }
    else if d == 6 { '6' }
    else if d == 7 { '7' }
    else if d == 8 { '8' }
    else { '9' }
}

/// Appends the decimal representation of `n` to `s`.
pub fn push_decimal(s: &mut String, n: u64)
    ensures
        final(s)@ == old(s)@ + decimal(n as nat),
    decreases n,
{
    if n >= 10 {
        push_decimal(s, n / 10);
    }
    let c = digit_to_char(n % 10);
    push_char(s, c);
    proof {
        if n >= 10 {
            assert(old(s)@ + decimal((n / 10) as nat) + seq![c] =~= old(s)@ + decimal(n as nat));
        } else {
            assert(old(s)@.push(c) =~= old(s)@ + decimal(n as nat));
        }
    }
}

/// Appends the decimal representation of `n`, zero-padded to `width` characters.
pub fn push_decimal_padded(s: &mut String, n: u64, width: u64)
    ensures
        final(s)@ == old(s)@ + decimal_padded(n as nat, width as nat),
{
    let len = decimal_len(n);
    if len < width {
        let pad = width - len;
        let mut k: u64 = 0;
        while k < pad
            invariant
                k <= pad,
                s@ == old(s)@ + Seq::new(k as nat, |i: int| '0'),
            decreases pad - k,
        {
            push_char(s, '0');
            assert(old(s)@ + Seq::new((k + 1) as nat, |i: int| '0') =~= (old(s)@ + Seq::new(k as nat, |i: int| '0')).push('0'));
            k = k + 1;
        }
        push_decimal(s, n);
        assert(old(s)@ + Seq::new(pad as nat, |i: int| '0') + decimal(n as nat) =~= old(s)@ + decimal_padded(n as nat, width as nat));
    } else {
        push_decimal(s, n);
    }
}

/// The number of digits of the decimal representation of `n`.
pub fn decimal_len(n: u64) -> (len: u64)
    ensures
        len == decimal(n as nat).len(),
        1 <= len <= 20,
    decreases n,
{
    if n < 10 {
        1
    } else {
        let l = decimal_len(n / 10);
        proof {
            lemma_decimal_len_bound(n as nat);
        }
        l + 1
    }
}

/// Ten to the power `k`.
pub open spec fn pow10(k: nat) -> nat
    decreases k,
{
    if k == 0 { 1 } else { 10 * pow10((k - 1) as nat) }
}

/// Decimal representations of 64-bit numbers have at most 20 digits.
proof fn lemma_decimal_len_bound(n: nat)
    requires
        n <= u64::MAX,
    ensures
        decimal(n).len() <= 20,
{
    reveal_with_fuel(pow10, 21);
    assert(pow10(20) == 100000000000000000000nat);
    lemma_decimal_len_le(n, 20);
}

/// A number below `10^k` has at most `k` digits.
proof fn lemma_decimal_len_le(n: nat, k: nat)
    requires
        k >= 1,
        n < pow10(k),
    ensures
        decimal(n).len() <= k,
    decreases k,
{
    if n >= 10 {
        if k == 1 {
            assert(pow10(1) == 10) by { reveal_with_fuel(pow10, 2); }
        } else {
            let p = pow10((k - 1) as nat);
            assert(n / 10 < p) by (nonlinear_arith)
                requires n < 10 * p;
            lemma_decimal_len_le(n / 10, (k - 1) as nat);
        }
    }
}

/// The decimal representation of `n` as a new string.
pub fn u64_to_string(n: u64) -> (r: String)
    ensures
        r@ == decimal(n as nat),
{
    let mut r = String::new();
    push_decimal(&mut r, n);
    assert(Seq::<char>::empty() + decimal(n as nat) =~= decimal(n as nat));
    r
}

/// Appends the decimal representation of a signed number.
pub fn push_signed_decimal(s: &mut String, n: i64)
    ensures
        final(s)@ == old(s)@ + signed_decimal(n as int),
{
    if n < 0 {
        push_char(s, '-');
        let m: u64 = if n == i64::MIN { 9223372036854775808u64 } else { (-n) as u64 };
        push_decimal(s, m);
        assert(old(s)@.push('-') + decimal(m as nat) =~= old(s)@ + signed_decimal(n as int));
    } else {
        push_decimal(s, n as u64);
    }
}

} // verus!
