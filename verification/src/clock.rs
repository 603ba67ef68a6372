//! Wall-clock access and the timestamp formats used across the server:
//! the ISO-8601 stamps of named sessions, the whole-second stamps
//! of downloads and media, and the millisecond stamps of events.

use vstd::prelude::*;
use vstd::string::*;
use crate::text::{chars_of, decimal, digit_char, decimal_padded, push_char, push_decimal_padded};

verus! {

/// A bound on the seconds of any instant chrono represents (its dates run
/// from year -262143 to year 262142).
pub const MAX_INSTANT_SECS: i64 = 9_000_000_000_000;

/// What `chrono::DateTime::parse_from_rfc3339` gives for `s`, as the instant's
/// whole seconds since the Unix epoch (`timestamp`) and its nanoseconds
/// within that second (`timestamp_subsec_nanos`, 1_000_000_000 or more
/// during a leap second), or `None` when `s` is not an RFC 3339 date-time.
pub uninterp spec fn rfc3339_instant(s: Seq<char>) -> Option<(i64, u32)>;

/// The time elapsed since the Unix epoch, as whole seconds and sub-second
/// nanoseconds (std's `SystemTime::now().duration_since(UNIX_EPOCH)`), or
/// `None` when the clock reads a time before the epoch.
/// Nothing is stated of the value: it is the machine's clock.
#[verifier::external_body]
pub(crate) fn system_time_since_epoch() -> (r: Option<(u64, u32)>)
    ensures
        r matches Some(t) ==> t.1 < 1_000_000_000,
{
    match std::time::SystemTime::now().duration_since(std::time::UNIX_EPOCH) {
        Ok(d) => Some((d.as_secs(), d.subsec_nanos())),
        Err(_) => None,
    }
}

/// Parses an RFC 3339 date-time with `chrono::DateTime::parse_from_rfc3339`
/// and converts the instant to (seconds since the epoch, sub-second nanos).
/// The result is a function of `s` alone, named `rfc3339_instant`.  The
/// nanosecond part stays below two seconds' worth: chrono accepts a leap
/// second (`:60`) and reports it as the 59th second with 1_000_000_000 or
/// more nanoseconds.  Its dates lie within years -262143 to 262142, so the
/// seconds stay within `MAX_INSTANT_SECS`.
#[verifier::external_body]
pub(crate) fn parse_rfc3339(s: &str) -> (r: Option<(i64, u32)>)
    ensures
        r == rfc3339_instant(s@),
        r matches Some(t) ==> t.1 < 2_000_000_000 && -MAX_INSTANT_SECS <= t.0 <= MAX_INSTANT_SECS,
{
    match chrono::DateTime::parse_from_rfc3339(s) {
        Ok(t) => Some((t.timestamp(), t.timestamp_subsec_nanos())),
        Err(_) => None,
    }
}

/// Seconds since the Unix epoch, zero when the clock reads a time before it.
pub fn unix_now_secs() -> (r: u64) {
    match system_time_since_epoch() {
        Some(t) => t.0,
        None => 0,
    }
}

/// Whether `y` is a leap year of the Gregorian calendar.
pub open spec fn is_leap_year(y: nat) -> bool {
    (y % 4 == 0 && y % 100 != 0) || y % 400 == 0
}

/// The number of days of year `y`.
pub open spec fn year_length(y: nat) -> nat {
    if is_leap_year(y) { 366 } else { 365 }
}

/// The number of days of month `m` (1 to 12) of year `y`.
pub open spec fn month_length(y: nat, m: nat) -> nat {
    if m == 2 {
        if is_leap_year(y) { 29 } else { 28 }
    } else if m == 4 || m == 6 || m == 9 || m == 11 {
        30
    } else {
        31
    }
}

/// The year in which the day `d` days after the first of January of year
/// `y` falls, and that day's index within its year (0 for the first of
/// January).
pub open spec fn year_and_day(y: nat, d: nat) -> (nat, nat)
    decreases d,
{
    if d < year_length(y) {
        (y, d)
    } else {
        year_and_day(y + 1, (d - year_length(y)) as nat)
    }
}

/// The month in which the day `d` days after the first of month `m` of year
/// `y` falls, counting on through the year, and that day's index within
/// its month; December takes whatever is left.
pub open spec fn month_and_day(y: nat, m: nat, d: nat) -> (nat, nat)
    decreases 12 - m,
{
    if m >= 12 || d < month_length(y, m) {
        (m, d)
    } else {
        month_and_day(y, m + 1, (d - month_length(y, m)) as nat)
    }
}

/// The UTC calendar fields (year, month, day, hour, minute, second) of the
/// instant `secs` seconds after 1970-01-01T00:00:00Z.
pub open spec fn calendar_fields(secs: nat) -> (nat, nat, nat, nat, nat, nat) {
    let days = secs / 86400;
    let in_day = secs % 86400;
    let yd = year_and_day(1970, days);
    let md = month_and_day(yd.0, 1, yd.1);
    (yd.0, md.0, md.1 + 1, in_day / 3600, (in_day % 3600) / 60, in_day % 60)
}

/// `YYYY-MM-DDTHH:MM:SSZ`: the UTC date and time `secs` seconds after the
/// epoch.
pub open spec fn iso8601_text(secs: nat) -> Seq<char> {
    let f = calendar_fields(secs);
    decimal_padded(f.0, 4) + seq!['-'] + decimal_padded(f.1, 2) + seq!['-']
        + decimal_padded(f.2, 2) + seq!['T'] + decimal_padded(f.3, 2) + seq![':']
        + decimal_padded(f.4, 2) + seq![':'] + decimal_padded(f.5, 2) + seq!['Z']
}

/// `s` is the session stamp of some instant.
pub open spec fn is_iso8601_stamp(s: Seq<char>) -> bool {
    exists|t: u64| s == iso8601_text(t as nat)
}

/// The days of the `n` years from year `y` on.
pub open spec fn years_span(y: nat, n: nat) -> nat
    decreases n,
{
    if n == 0 { 0 } else { year_length(y) + years_span(y + 1, (n - 1) as nat) }
}

proof fn lemma_years_span_push(y: nat, n: nat)
    ensures
        years_span(y, n + 1) == years_span(y, n) + year_length(y + n),
    decreases n,
{
    if n > 0 {
        let p = (n - 1) as nat;
        lemma_years_span_push(y + 1, p);
        assert(years_span(y, n + 1) == year_length(y) + years_span(y + 1, n));
        assert(years_span(y, n) == year_length(y) + years_span(y + 1, p));
        assert(y + 1 + p == y + n);
    } else {
        assert(years_span(y + 1, 0) == 0);
        assert(years_span(y, 1) == year_length(y) + years_span(y + 1, 0));
    }
}

/// The leap years among years 0 to `m - 1`.
spec fn leaps_before(m: nat) -> int {
    (m + 3) / 4 - (m + 99) / 100 + (m + 399) / 400
}

/// Counting one more number among the multiples of `d` from 1 on.
proof fn lemma_div_step(m: int, d: int)
    requires
        m >= 0,
        d > 0,
    ensures
        (m + d) / d == (m + d - 1) / d + (if m % d == 0 { 1int } else { 0int }),
{
    let q = m / d;
    let r = m % d;
    vstd::arithmetic::div_mod::lemma_fundamental_div_mod(m, d);
    assert(m + d == d * (q + 1) + r) by (nonlinear_arith)
        requires
            m == d * q + r;
    vstd::arithmetic::div_mod::lemma_fundamental_div_mod_converse(m + d, d, q + 1, r);
    if r == 0 {
        assert(m + d - 1 == d * q + (d - 1)) by (nonlinear_arith)
            requires
                m == d * q + r,
                r == 0;
        vstd::arithmetic::div_mod::lemma_fundamental_div_mod_converse(m + d - 1, d, q, d - 1);
    } else {
        assert(m + d - 1 == d * (q + 1) + (r - 1)) by (nonlinear_arith)
            requires
                m == d * q + r;
        vstd::arithmetic::div_mod::lemma_fundamental_div_mod_converse(m + d - 1, d, q + 1, r - 1);
    }
}

/// Adding `k` multiples of `d` adds `k` to the quotient.
proof fn lemma_div_add_multiple(x: int, d: int, k: int)
    requires
        x >= 0,
        d > 0,
        k >= 0,
    ensures
        (x + d * k) / d == x / d + k,
{
    vstd::arithmetic::div_mod::lemma_fundamental_div_mod(x, d);
    let q = x / d;
    let r = x % d;
    assert(x + d * k == d * (q + k) + r) by (nonlinear_arith)
        requires
            x == d * q + r;
    vstd::arithmetic::div_mod::lemma_fundamental_div_mod_converse(x + d * k, d, q + k, r);
}

proof fn lemma_leaps_step(m: nat)
    ensures
        leaps_before(m + 1) == leaps_before(m) + (if is_leap_year(m) { 1int } else { 0int }),
{
    lemma_div_step(m as int, 4);
    lemma_div_step(m as int, 100);
    lemma_div_step(m as int, 400);
}

/// The days of `n` years from year `y` on: 365 each, plus the leap days.
proof fn lemma_years_span_closed(y: nat, n: nat)
    ensures
        years_span(y, n) == 365 * n + leaps_before(y + n) - leaps_before(y),
    decreases n,
{
    if n > 0 {
        let p = (n - 1) as nat;
        lemma_years_span_closed(y, p);
        lemma_years_span_push(y, p);
        lemma_leaps_step(y + p);
    }
}

/// Any 400 consecutive years hold 146097 days.
proof fn lemma_years_span_400(y: nat)
    ensures
        years_span(y, 400) == 146097,
{
    lemma_years_span_closed(y, 400);
    lemma_div_add_multiple(y + 3int, 4, 100);
    lemma_div_add_multiple(y + 99int, 100, 4);
    lemma_div_add_multiple(y + 399int, 400, 1);
}

/// Skipping `n` whole years.
proof fn lemma_skip_years(y: nat, d: nat, n: nat)
    requires
        d >= years_span(y, n),
    ensures
        year_and_day(y, d) == year_and_day(y + n, (d - years_span(y, n)) as nat),
    decreases n,
{
    if n > 0 {
        lemma_skip_years(y + 1, (d - year_length(y)) as nat, (n - 1) as nat);
    }
}

/// Skipping `k` whole 400-year cycles.
proof fn lemma_skip_cycles(y: nat, d: nat, k: nat)
    requires
        d >= 146097 * k,
    ensures
        year_and_day(y, d) == year_and_day(y + 400 * k, (d - 146097 * k) as nat),
    decreases k,
{
    if k > 0 {
        lemma_years_span_400(y);
        lemma_skip_years(y, d, 400);
        lemma_skip_cycles(y + 400, (d - 146097) as nat, (k - 1) as nat);
    }
}

/// The days of year `y`.
fn year_length_of(y: u64) -> (r: u64)
    ensures
        r == year_length(y as nat),
{
    if (y % 4 == 0 && y % 100 != 0) || y % 400 == 0 { 366 } else { 365 }
}

/// The days of month `m` of year `y`.
fn month_length_of(y: u64, m: u64) -> (r: u64)
    ensures
        r == month_length(y as nat, m as nat),
{
    if m == 2 {
        if (y % 4 == 0 && y % 100 != 0) || y % 400 == 0 { 29 } else { 28 }
    } else if m == 4 || m == 6 || m == 9 || m == 11 {
        30
    } else {
        31
    }
}

/// Formats `secs` as a session stamp: the UTC date and time in ISO 8601.
pub fn format_iso8601(secs: u64) -> (r: String)
    ensures
        r@ == iso8601_text(secs as nat),
{
    let days = secs / 86400;
    let in_day = secs % 86400;
    let k = days / 146097;
    let mut rem = days % 146097;
    assert(days <= 213_503_982_334_601);
    assert(k <= 1_500_000_000) by (nonlinear_arith)
        requires
            k == days / 146097,
            days <= 213_503_982_334_601;
    let base = 1970 + 400 * k;
    let mut year = base;
    proof {
        lemma_skip_cycles(1970, days as nat, k as nat);
    }
    while rem >= year_length_of(year)
        invariant
            base <= 600_000_000_000,
            rem <= 146097,
            base <= year <= base + (146097 - rem),
            year_and_day(year as nat, rem as nat) == year_and_day(1970, days as nat),
        decreases rem,
    {
        let len = year_length_of(year);
        rem = rem - len;
        year = year + 1;
    }
    let mut month: u64 = 1;
    let mut day = rem;
    while month < 12 && day >= month_length_of(year, month)
        invariant
            1 <= month <= 12,
            day <= rem,
            month_and_day(year as nat, month as nat, day as nat) == month_and_day(year as nat, 1, rem as nat),
        decreases 12 - month,
    {
        let len = month_length_of(year, month);
        day = day - len;
        month = month + 1;
    }
    let mut r = String::new();
    push_decimal_padded(&mut r, year, 4);
    push_char(&mut r, '-');
    push_decimal_padded(&mut r, month, 2);
    push_char(&mut r, '-');
    push_decimal_padded(&mut r, day + 1, 2);
    push_char(&mut r, 'T');
    push_decimal_padded(&mut r, in_day / 3600, 2);
    push_char(&mut r, ':');
    push_decimal_padded(&mut r, (in_day % 3600) / 60, 2);
    push_char(&mut r, ':');
    push_decimal_padded(&mut r, in_day % 60, 2);
    push_char(&mut r, 'Z');
    assert(r@ =~= iso8601_text(secs as nat));
    r
}

/// The current time as a session stamp.
pub fn chrono_now_iso8601() -> (r: String)
    ensures
        is_iso8601_stamp(r@),
{
    let secs = unix_now_secs();
    format_iso8601(secs)
}

/// The seconds from which `add_hours_text` counts: the instant `base` names
/// (its whole seconds, reinterpreted as unsigned) when it parses, else `now`.
pub open spec fn add_hours_base(base: Seq<char>, now: u64) -> u64 {
    match rfc3339_instant(base) {
        Some(t) => t.0 as u64,
        None => now,
    }
}

/// The stamp `hours` hours after `base_secs`, the 64-bit arithmetic wrapping
/// around as a release build's does.
pub open spec fn add_hours_text(base_secs: u64, hours: u64) -> Seq<char> {
    iso8601_text(
        vstd::wrapping::u64_specs::wrapping_add(
            base_secs,
            vstd::wrapping::u64_specs::wrapping_mul(hours, 3600),
        ) as nat,
    )
}

/// The stamp `hours` hours after `base_secs`.
pub fn add_hours_to_secs(base_secs: u64, hours: u64) -> (r: String)
    ensures
        r@ == add_hours_text(base_secs, hours),
{
    let delta = hours.wrapping_mul(3600);
    format_iso8601(base_secs.wrapping_add(delta))
}

/// The stamp `hours` hours after the instant `base` names; when `base` does
/// not parse, counts from the current time.
pub fn chrono_add_hours(base: &str, hours: u64) -> (r: String)
    ensures
        exists|now: u64| r@ == add_hours_text(add_hours_base(base@, now), hours),
{
    let base_secs: u64 = match parse_rfc3339(base) {
        Some(t) => t.0 as u64,
        None => unix_now_secs(),
    };
    let r = add_hours_to_secs(base_secs, hours);
    proof {
        let now = base_secs;
        assert(r@ == add_hours_text(add_hours_base(base@, now), hours));
    }
    r
}

/// The stamp `hours` hours after the instant `base` names, counting from
/// `now_secs` when `base` does not parse.
pub fn add_hours_from(base: &str, hours: u64, now_secs: u64) -> (r: String)
    ensures
        r@ == add_hours_text(add_hours_base(base@, now_secs), hours),
{
    let base_secs: u64 = match parse_rfc3339(base) {
        Some(t) => t.0 as u64,
        None => now_secs,
    };
    add_hours_to_secs(base_secs, hours)
}

/// Whether an expiry stamp lies in the past at the instant `now`
/// (seconds, nanoseconds): an absent or unparsable stamp never expires.
pub open spec fn expired_at(expires_at: Option<Seq<char>>, now: (i64, u32)) -> bool {
    match expires_at {
        None => false,
        Some(ts) => match rfc3339_instant(ts) {
            None => false,
            Some(exp) => exp.0 < now.0 || (exp.0 == now.0 && exp.1 < now.1),
        },
    }
}

/// The current instant as (seconds, nanoseconds) since the epoch, read from
/// the system clock.  A clock that reads a time before the epoch counts as
/// the epoch itself, and one beyond chrono's range of dates as its last
/// second.
pub(crate) fn utc_now() -> (r: (i64, u32))
    ensures
        r.1 < 1_000_000_000,
        0 <= r.0 <= MAX_INSTANT_SECS,
{
    match system_time_since_epoch() {
        Some(t) => {
            if t.0 <= MAX_INSTANT_SECS as u64 {
                (t.0 as i64, t.1)
            } else {
                (MAX_INSTANT_SECS, t.1)
            }
        },
        None => (0, 0),
    }
}

/// Whether `expires_at` lies in the past at the instant `now`.
pub fn is_expired_at(expires_at: &Option<String>, now: (i64, u32)) -> (r: bool)
    ensures
        r == expired_at(opt_view(expires_at), now),
{
    match expires_at {
        None => false,
        Some(ts) => match parse_rfc3339(ts.as_str()) {
            None => false,
            Some(exp) => exp.0 < now.0 || (exp.0 == now.0 && exp.1 < now.1),
        },
    }
}

/// Whether `expires_at` lies in the past now.
pub fn is_expired(expires_at: &Option<String>) -> (r: bool)
    ensures
        exists|now: (i64, u32)| r == expired_at(opt_view(expires_at), now),
{
    let now = utc_now();
    is_expired_at(expires_at, now)
}

/// The view of an optional string.
pub open spec fn opt_view(o: &Option<String>) -> Option<Seq<char>> {
    match o {
        Some(s) => Some(s@),
        None => None,
    }
}

/// An instant (seconds, nanoseconds) as nanoseconds since the epoch; a
/// leap second's nanoseconds (1_000_000_000 or more) run into the next
/// second.
pub open spec fn instant_nanos(t: (i64, u32)) -> int {
    t.0 * 1_000_000_000 + t.1
}

/// Whether at least `secs` seconds lie between `then` and `now`, compared
/// to the nanosecond.
pub open spec fn elapsed_at_least(now: (i64, u32), then: (i64, u32), secs: u64) -> bool {
    instant_nanos(now) - instant_nanos(then) >= secs * 1_000_000_000
}

/// Whether at least `secs` seconds lie between `then` and `now`.
pub fn has_elapsed(now: (i64, u32), then: (i64, u32), secs: u64) -> (r: bool)
    requires
        now.1 < 2_000_000_000,
        then.1 < 2_000_000_000,
        -MAX_INSTANT_SECS <= now.0 <= MAX_INSTANT_SECS,
        -MAX_INSTANT_SECS <= then.0 <= MAX_INSTANT_SECS,
    ensures
        r == elapsed_at_least(now, then, secs),
{
    let a: i128 = now.0 as i128 * 1_000_000_000 + now.1 as i128;
    let b: i128 = then.0 as i128 * 1_000_000_000 + then.1 as i128;
    let limit: i128 = secs as i128 * 1_000_000_000;
    a - b >= limit
}

/// Decimal number with an optional leading `+` (std's `u64::from_str`),
/// or `None` when `s` is empty, holds another character, or overflows.
pub open spec fn parse_u64_spec(s: Seq<char>) -> Option<u64> {
    let digits = digit_part(s);
    if digits.len() == 0 || !all_digits(digits) {
        None
    } else if digits_value(digits) > u64::MAX {
        None
    } else {
        Some(digits_value(digits) as u64)
    }
}

/// `s` without its leading `+`, if it has one.
pub open spec fn digit_part(s: Seq<char>) -> Seq<char> {
    if s.len() > 0 && s[0] == '+' { s.drop_first() } else { s }
}

/// Every character of `d` is a decimal digit.
pub open spec fn all_digits(d: Seq<char>) -> bool {
    forall|i: int| 0 <= i < d.len() ==> '0' <= #[trigger] d[i] <= '9'
}

/// The value of a sequence of decimal digits.
pub open spec fn digits_value(d: Seq<char>) -> nat
    decreases d.len(),
{
    if d.len() == 0 {
        0
    } else {
        digits_value(d.drop_last()) * 10 + ((d.last() as u32) - ('0' as u32)) as nat
    }
}

/// Parses a decimal `u64` as `str::parse::<u64>` does.
pub fn parse_u64(s: &str) -> (r: Option<u64>)
    ensures
        r == parse_u64_spec(s@),
{
    let cs = chars_of(s);
    let start: usize = if cs.len() > 0 && cs[0] == '+' { 1 } else { 0 };
    let ghost digits = digit_part(s@);
    assert(digits =~= cs@.subrange(start as int, cs@.len() as int));
    if start >= cs.len() {
        assert(digits.len() == 0);
        return None;
    }
    let mut value: u64 = 0;
    let mut i: usize = start;
    while i < cs.len()
        invariant
            cs@ == s@,
            digits == digit_part(s@),
            start <= i <= cs@.len(),
            digits =~= cs@.subrange(start as int, cs@.len() as int),
            forall|k: int| start <= k < i ==> '0' <= #[trigger] cs@[k] <= '9',
            value == digits_value(cs@.subrange(start as int, i as int)),
        decreases cs@.len() - i,
    {
        let c = cs[i];
        if c < '0' || c > '9' {
            assert(digits[i - start] == c);
            assert(!('0' <= digits[i - start] <= '9'));
            assert(!all_digits(digits));
            return None;
        }
        let d: u64 = (c as u32 - '0' as u32) as u64;
        assert(cs@.subrange(start as int, i + 1).drop_last() =~= cs@.subrange(start as int, i as int));
        if value > (u64::MAX - d) / 10 {
            proof {
                assert(value * 10 + d > u64::MAX) by (nonlinear_arith)
                    requires value > (u64::MAX - d) / 10, d <= 9;
                assert(digits_value(cs@.subrange(start as int, i + 1)) == value * 10 + d);
                if all_digits(digits) {
                    lemma_digits_value_monotone(digits, (i + 1 - start) as nat);
                    assert(digits.take((i + 1 - start) as int) =~= cs@.subrange(start as int, i + 1));
                    assert(digits_value(digits) > u64::MAX);
                }
                assert(parse_u64_spec(s@) is None);
            }
            return None;
        }
        value = value * 10 + d;
        i = i + 1;
    }
    assert(cs@.subrange(start as int, i as int) =~= digits);
    Some(value)
}

/// A prefix of a digit sequence has no greater value than the whole.
proof fn lemma_digits_value_monotone(d: Seq<char>, k: nat)
    requires
        k <= d.len(),
        forall|i: int| 0 <= i < d.len() ==> '0' <= #[trigger] d[i] <= '9',
    ensures
        digits_value(d.take(k as int)) <= digits_value(d),
    decreases d.len() - k,
{
    if k < d.len() {
        lemma_digits_value_monotone(d, k + 1);
        assert(d.take(k + 1 as int).drop_last() =~= d.take(k as int));
        let v = digits_value(d.take(k as int));
        let dig = ((d[k as int] as u32) - ('0' as u32)) as nat;
        assert(v <= v * 10 + dig) by (nonlinear_arith);
    } else {
        assert(d.take(k as int) =~= d);
    }
}


/// The decimal text of a number is all digits and reads back as the number.
proof fn lemma_decimal_digits(n: nat)
    ensures
        decimal(n).len() > 0,
        all_digits(decimal(n)),
        digits_value(decimal(n)) == n,
    decreases n,
{
    if n < 10 {
        let d = decimal(n);
        assert(d.drop_last() =~= Seq::<char>::empty());
        assert(digits_value(d.drop_last()) == 0);
    } else {
        lemma_decimal_digits(n / 10);
        let d = decimal(n);
        assert(d.drop_last() =~= decimal(n / 10));
        assert(d.last() == digit_char(n % 10));
        assert(all_digits(d)) by {
            assert forall|i: int| 0 <= i < d.len() implies '0' <= #[trigger] d[i] <= '9' by {
                if i < d.len() - 1 {
                    assert(d[i] == decimal(n / 10)[i]);
                }
            }
        }
    }
}

/// Reading back the decimal text of a number gives the number: what
/// `u64_to_string` writes, `parse_u64` reads as the same value.
pub proof fn law_parse_reads_decimal(n: u64)
    ensures
        parse_u64_spec(decimal(n as nat)) == Some(n),
{
    lemma_decimal_digits(n as nat);
    assert(decimal(n as nat)[0] != '+');
    assert(digit_part(decimal(n as nat)) == decimal(n as nat));
}

} // verus!
