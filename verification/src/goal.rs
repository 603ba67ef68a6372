//! Goals: declarative automation steps (navigate, click, fill, submit,
//! wait, extract, scroll), the scripts that perform them, error
//! classification for retries, and preset and custom flows of goals.

use vstd::prelude::*;
use vstd::string::*;
use crate::ordering::{Named, sort_by_name, sorted_by_name};
use crate::table::{Keyed, Table};
use crate::text::{
    contains_seq, decimal, eq_ignore_ascii_case_seq, escape_quotes, escape_quotes_str, lowercase, owned,
    push_decimal, push_signed_decimal, push_str, signed_decimal, str_contains, str_eq,
    str_eq_ignore_ascii_case, to_lowercase, views,
};

verus! {

/// The kind of a goal.
#[derive(Debug, Clone, Copy, PartialEq, Eq, Structural)]
pub enum GoalType {
    Navigate,
    Click,
    Fill,
    Submit,
    Wait,
    Extract,
    Login,
    Search,
    Scroll,
    Screenshot,
    Custom,
}

/// A goal parameter value: the JSON values goals read (strings, booleans,
/// unsigned integers), any other value kept as JSON text.
#[derive(Debug, Clone)]
pub enum ParamValue {
    Str(String),
    Bool(bool),
    UInt(u64),
    Other(String),
}

/// The spec value of a parameter.
pub enum ParamView {
    Str(Seq<char>),
    Bool(bool),
    UInt(u64),
    Other(Seq<char>),
}

/// The view of a parameter value.
pub open spec fn param_view(v: ParamValue) -> ParamView {
    match v {
        ParamValue::Str(s) => ParamView::Str(s@),
        ParamValue::Bool(b) => ParamView::Bool(b),
        ParamValue::UInt(n) => ParamView::UInt(n),
        ParamValue::Other(j) => ParamView::Other(j@),
    }
}

/// The views of a parameter list.
pub open spec fn param_views(ps: Seq<(String, ParamValue)>) -> Seq<(Seq<char>, ParamView)> {
    ps.map_values(|p: (String, ParamValue)| (p.0@, param_view(p.1)))
}

/// A goal request.
#[derive(Debug)]
pub struct GoalRequest {
    pub session: String,
    pub goal_type: GoalType,
    /// Selector, URL or text the goal acts on.
    pub target: String,
    pub params: Vec<(String, ParamValue)>,
    pub retry: RetryConfig,
    pub timeout_ms: u64,
    /// Goals to run after this one, in order.
    pub chain: Option<Vec<GoalRequest>>,
}

/// Goal timeout unless told otherwise.
pub fn default_timeout() -> (r: u64)
    ensures
        r == 30000,
{
    30000
}

/// Retry policy of a goal; the backoff multiplier is kept in thousandths
/// (2.0 is 2000).
#[derive(Debug, Clone)]
pub struct RetryConfig {
    pub max_retries: u32,
    pub initial_delay_ms: u64,
    pub multiplier_thousandths: u32,
    pub max_delay_ms: u64,
    /// Error texts (matched case-insensitively) that are worth a retry.
    pub retry_on: Vec<String>,
}

/// Retries unless told otherwise.
pub fn default_max_retries() -> (r: u32)
    ensures
        r == 3,
{
    3
}

/// First retry delay unless told otherwise, in milliseconds.
pub fn default_initial_delay() -> (r: u64)
    ensures
        r == 1000,
{
    1000
}

/// Backoff multiplier unless told otherwise, in thousandths (2.0).
pub fn default_multiplier() -> (r: u32)
    ensures
        r == 2000,
{
    2000
}

/// Longest retry delay unless told otherwise, in milliseconds.
pub fn default_max_delay() -> (r: u64)
    ensures
        r == 10000,
{
    10000
}

/// The default retry policy.
pub open spec fn is_default_retry(c: RetryConfig) -> bool {
    &&& c.max_retries == 3
    &&& c.initial_delay_ms == 1000
    &&& c.multiplier_thousandths == 2000
    &&& c.max_delay_ms == 10000
    &&& views(c.retry_on@) == seq!["element_not_found"@, "timeout"@, "network_error"@]
}

impl Default for RetryConfig {
    fn default() -> (r: Self)
        ensures
            is_default_retry(r),
    {
        let retry_on = vec![owned("element_not_found"), owned("timeout"), owned("network_error")];
        let r = RetryConfig {
            max_retries: default_max_retries(),
            initial_delay_ms: default_initial_delay(),
            multiplier_thousandths: default_multiplier(),
            max_delay_ms: default_max_delay(),
            retry_on,
        };
        assert(views(r.retry_on@) =~= seq!["element_not_found"@, "timeout"@, "network_error"@]);
        r
    }
}

/// The outcome of a goal; `data` is JSON text.
#[derive(Debug)]
pub struct GoalResponse {
    pub success: bool,
    pub goal_type: String,
    pub target: String,
    pub data: Option<String>,
    pub attempts: u32,
    pub elapsed_ms: u64,
    pub error: Option<String>,
    pub chain_results: Option<Vec<GoalResponse>>,
}

/// Whether retrying after an error may help.
#[derive(Debug, Clone, Copy, PartialEq, Eq, Structural)]
pub enum ErrorCategory {
    /// Retrying may help.
    Transient,
    /// Retrying will not help.
    Permanent,
    /// Not known; retried when the policy lists it.
    Unknown,
}

/// The category of a lowercased error text.
pub open spec fn category_of(lower: Seq<char>) -> ErrorCategory {
    if contains_seq(lower, "invalid selector"@) || contains_seq(lower, "syntax error"@)
        || contains_seq(lower, "unauthorized"@) || contains_seq(lower, "forbidden"@)
        || (contains_seq(lower, "not found"@) && contains_seq(lower, "page"@))
        || contains_seq(lower, "session closed"@) {
        ErrorCategory::Permanent
    } else if contains_seq(lower, "timeout"@) || contains_seq(lower, "element not found"@)
        || contains_seq(lower, "not visible"@) || contains_seq(lower, "network"@)
        || contains_seq(lower, "connection"@) || contains_seq(lower, "loading"@)
        || contains_seq(lower, "stale"@) {
        ErrorCategory::Transient
    } else {
        ErrorCategory::Unknown
    }
}

/// The category of an already-lowercased error text.
pub fn classify_lowercase(lower: &str) -> (r: ErrorCategory)
    ensures
        r == category_of(lower@),
{
    if str_contains(lower, "invalid selector") || str_contains(lower, "syntax error")
        || str_contains(lower, "unauthorized") || str_contains(lower, "forbidden")
        || (str_contains(lower, "not found") && str_contains(lower, "page"))
        || str_contains(lower, "session closed") {
        return ErrorCategory::Permanent;
    }
    if str_contains(lower, "timeout") || str_contains(lower, "element not found")
        || str_contains(lower, "not visible") || str_contains(lower, "network")
        || str_contains(lower, "connection") || str_contains(lower, "loading")
        || str_contains(lower, "stale") {
        return ErrorCategory::Transient;
    }
    ErrorCategory::Unknown
}

/// Classifies an error for the retry decision, from its lowercased text:
/// permanent for selector, syntax, authorization, missing-page and
/// closed-session errors; transient for timeouts, missing or hidden
/// elements, network, connection, loading and stale-element errors.
pub fn classify_error(error: &str) -> (r: ErrorCategory)
    ensures
        r == category_of(lowercase(error@)),
{
    let lower = to_lowercase(error);
    classify_lowercase(lower.as_str())
}

/// Whether to retry after `error`: never for permanent errors, always for
/// transient ones, and otherwise when the lowercased error contains one of
/// the policy's lowercased `retry_on` texts.
pub open spec fn retry_decision(error: Seq<char>, retry_on: Seq<Seq<char>>) -> bool {
    match category_of(lowercase(error)) {
        ErrorCategory::Permanent => false,
        ErrorCategory::Transient => true,
        ErrorCategory::Unknown => exists|i: int| 0 <= i < retry_on.len()
            && contains_seq(lowercase(error), lowercase(#[trigger] retry_on[i])),
    }
}

/// Whether to retry after `error` under `config`.
pub fn should_retry(error: &str, config: &RetryConfig) -> (r: bool)
    ensures
        r == retry_decision(error@, views(config.retry_on@)),
{
    let lower = to_lowercase(error);
    match classify_lowercase(lower.as_str()) {
        ErrorCategory::Permanent => false,
        ErrorCategory::Transient => true,
        ErrorCategory::Unknown => {
            let mut i: usize = 0;
            while i < config.retry_on.len()
                invariant
                    i <= config.retry_on@.len(),
                    lower@ == lowercase(error@),
                    category_of(lowercase(error@)) == ErrorCategory::Unknown,
                    forall|k: int| 0 <= k < i ==> !contains_seq(lowercase(error@), lowercase(#[trigger] views(config.retry_on@)[k])),
                decreases config.retry_on@.len() - i,
            {
                let l = to_lowercase(config.retry_on[i].as_str());
                if str_contains(lower.as_str(), l.as_str()) {
                    assert(views(config.retry_on@)[i as int] == config.retry_on@[i as int]@);
                    assert(contains_seq(lowercase(error@), lowercase(views(config.retry_on@)[i as int])));
                    return true;
                }
                assert(views(config.retry_on@)[i as int] == config.retry_on@[i as int]@);
                i = i + 1;
            }
            false
        },
    }
}

// ---------------------------------------------------------------------------
// Parameters
// ---------------------------------------------------------------------------

/// The value of the first parameter named `key`.
pub open spec fn param_lookup(ps: Seq<(Seq<char>, ParamView)>, key: Seq<char>) -> Option<ParamView>
    decreases ps.len(),
{
    if ps.len() == 0 {
        None
    } else if ps[0].0 == key {
        Some(ps[0].1)
    } else {
        param_lookup(ps.drop_first(), key)
    }
}

/// The position of the first parameter named `key`.
fn param_position(ps: &Vec<(String, ParamValue)>, key: &str) -> (r: Option<usize>)
    ensures
        match r {
            Some(i) => i < ps@.len() && param_lookup(param_views(ps@), key@) == Some(param_view(ps@[i as int].1)),
            None => param_lookup(param_views(ps@), key@) is None,
        },
{
    let ghost pv = param_views(ps@);
    let mut i: usize = 0;
    assert(pv.skip(0) =~= pv);
    while i < ps.len()
        invariant
            i <= ps@.len(),
            pv == param_views(ps@),
            param_lookup(pv, key@) == param_lookup(pv.skip(i as int), key@),
        decreases ps@.len() - i,
    {
        proof {
            assert(pv.skip(i as int)[0] == (ps@[i as int].0@, param_view(ps@[i as int].1)));
            assert(pv.skip(i as int).drop_first() =~= pv.skip(i + 1));
        }
        if str_eq(ps[i].0.as_str(), key) {
            return Some(i);
        }
        i = i + 1;
    }
    assert(pv.skip(i as int).len() == 0);
    None
}

/// The string parameter `key`, or `default` when it is absent or not a
/// string.
pub open spec fn param_str_spec(ps: Seq<(Seq<char>, ParamView)>, key: Seq<char>, default: Seq<char>) -> Seq<char> {
    match param_lookup(ps, key) {
        Some(ParamView::Str(s)) => s,
        _ => default,
    }
}

/// The string parameter `key`, if present and a string.
pub open spec fn param_str_opt(ps: Seq<(Seq<char>, ParamView)>, key: Seq<char>) -> Option<Seq<char>> {
    match param_lookup(ps, key) {
        Some(ParamView::Str(s)) => Some(s),
        _ => None,
    }
}

/// The string parameter `key`, if present and a string.
pub fn param_str<'a>(ps: &'a Vec<(String, ParamValue)>, key: &str) -> (r: Option<&'a str>)
    ensures
        match r {
            Some(s) => param_str_opt(param_views(ps@), key@) == Some(s@),
            None => param_str_opt(param_views(ps@), key@) is None,
        },
{
    match param_position(ps, key) {
        Some(i) => match &ps[i].1 {
            ParamValue::Str(s) => Some(s.as_str()),
            _ => None,
        },
        None => None,
    }
}

/// The string parameter `key`, or `default`.
pub fn param_str_or<'a>(ps: &'a Vec<(String, ParamValue)>, key: &str, default: &'a str) -> (r: &'a str)
    ensures
        r@ == param_str_spec(param_views(ps@), key@, default@),
{
    match param_position(ps, key) {
        Some(i) => match &ps[i].1 {
            ParamValue::Str(s) => s.as_str(),
            _ => default,
        },
        None => default,
    }
}

/// The boolean parameter `key`, or `default`.
pub fn param_bool_or(ps: &Vec<(String, ParamValue)>, key: &str, default: bool) -> (r: bool)
    ensures
        r == (match param_lookup(param_views(ps@), key@) {
            Some(ParamView::Bool(b)) => b,
            _ => default,
        }),
{
    match param_position(ps, key) {
        Some(i) => match &ps[i].1 {
            ParamValue::Bool(b) => *b,
            _ => default,
        },
        None => default,
    }
}

/// The unsigned-integer parameter `key`, or `default`.
pub fn param_u64_or(ps: &Vec<(String, ParamValue)>, key: &str, default: u64) -> (r: u64)
    ensures
        r == (match param_lookup(param_views(ps@), key@) {
            Some(ParamView::UInt(n)) => n,
            _ => default,
        }),
{
    match param_position(ps, key) {
        Some(i) => match &ps[i].1 {
            ParamValue::UInt(n) => *n,
            _ => default,
        },
        None => default,
    }
}

/// The value a fill goal types (`value`, default empty).
pub open spec fn fill_value(ps: Seq<(String, ParamValue)>) -> Seq<char> {
    param_str_spec(param_views(ps), "value"@, ""@)
}

/// Whether an extract goal takes every match (`all`, default false).
pub open spec fn extract_all(ps: Seq<(String, ParamValue)>) -> bool {
    match param_lookup(param_views(ps), "all"@) {
        Some(ParamView::Bool(b)) => b,
        _ => false,
    }
}

/// What an extract goal reads (`attribute`, default `text`).
pub open spec fn extract_attribute(ps: Seq<(String, ParamValue)>) -> Seq<char> {
    param_str_spec(param_views(ps), "attribute"@, "text"@)
}

/// The scroll amount (`amount`, default 500).
pub open spec fn scroll_amount(ps: Seq<(String, ParamValue)>) -> u64 {
    match param_lookup(param_views(ps), "amount"@) {
        Some(ParamView::UInt(n)) => n,
        _ => 500,
    }
}

/// Whether a scroll goes up (`direction` is `up`; default `down`).
pub open spec fn scroll_up(ps: Seq<(String, ParamValue)>) -> bool {
    param_str_spec(param_views(ps), "direction"@, "down"@) == "up"@
}

/// The vertical scroll of a scroll goal: the amount, reinterpreted as a
/// signed 64-bit number, negated when scrolling up.
pub open spec fn scroll_delta(ps: Seq<(String, ParamValue)>) -> int {
    let a = scroll_amount(ps) as i64;
    if scroll_up(ps) { -a } else { a as int }
}

/// The scroll delta exists: an upward scroll does not negate the least
/// 64-bit number.
pub open spec fn scroll_delta_defined(req: GoalRequest) -> bool {
    req.goal_type == GoalType::Scroll && scroll_up(req.params@) ==> scroll_amount(req.params@) as i64 != i64::MIN
}

/// The script a goal runs (see `generate_goal_script`).
pub open spec fn goal_script(req: GoalRequest) -> Seq<char> {
    match req.goal_type {
        GoalType::Navigate => "
window.location.href = \""@ + escape_quotes(req.target@) + "\";
JSON.stringify({ navigated: true, url: window.location.href });
"@,
        GoalType::Click => "
(function() {
    const el = document.querySelector(\""@ + escape_quotes(req.target@) + "\");
    if (!el) return JSON.stringify({ error: \"element_not_found\", selector: \""@ + escape_quotes(req.target@) + "\" });
    el.click();
    return JSON.stringify({ clicked: true, selector: \""@ + escape_quotes(req.target@) + "\" });
})();
"@,
        GoalType::Fill => "
(function() {
    const el = document.querySelector(\""@ + escape_quotes(req.target@) + "\");
    if (!el) return JSON.stringify({ error: \"element_not_found\", selector: \""@ + escape_quotes(req.target@) + "\" });
    el.value = \""@ + escape_quotes(fill_value(req.params@)) + "\";
    el.dispatchEvent(new Event('input', { bubbles: true }));
    el.dispatchEvent(new Event('change', { bubbles: true }));
    return JSON.stringify({ filled: true, selector: \""@ + escape_quotes(req.target@) + "\" });
})();
"@,
        GoalType::Submit => "
(function() {
    const form = document.querySelector(\""@ + escape_quotes(req.target@) + "\");
    if (!form) return JSON.stringify({ error: \"form_not_found\", selector: \""@ + escape_quotes(req.target@) + "\" });
    form.submit();
    return JSON.stringify({ submitted: true });
})();
"@,
        GoalType::Wait => "
(function() {
    return new Promise((resolve) => {
        const check = () => {
            const el = document.querySelector(\""@ + escape_quotes(req.target@) + "\");
            if (el) {
                resolve(JSON.stringify({ found: true, selector: \""@ + escape_quotes(req.target@) + "\" }));
            } else {
                setTimeout(check, 100);
            }
        };
        check();
        setTimeout(() => resolve(JSON.stringify({ error: \"timeout\", selector: \""@ + escape_quotes(req.target@) + "\" })), "@ + decimal(req.timeout_ms as nat) + ");
    });
})();
"@,
        GoalType::Extract => if extract_all(req.params@) {
            "
(function() {
    const elements = Array.from(document.querySelectorAll(\""@ + escape_quotes(req.target@) + "\"));
    if (elements.length === 0) return JSON.stringify({ error: \"no_elements\", selector: \""@ + escape_quotes(req.target@) + "\" });
    const data = elements.map(el => {
        if (\""@ + extract_attribute(req.params@) + "\" === \"text\") return el.textContent.trim();
        if (\""@ + extract_attribute(req.params@) + "\" === \"html\") return el.innerHTML;
        return el.getAttribute(\""@ + extract_attribute(req.params@) + "\");
    });
    return JSON.stringify({ data: data, count: data.length });
})();
"@
        } else {
            "
(function() {
    const el = document.querySelector(\""@ + escape_quotes(req.target@) + "\");
    if (!el) return JSON.stringify({ error: \"element_not_found\", selector: \""@ + escape_quotes(req.target@) + "\" });
    let data;
    if (\""@ + extract_attribute(req.params@) + "\" === \"text\") data = el.textContent.trim();
    else if (\""@ + extract_attribute(req.params@) + "\" === \"html\") data = el.innerHTML;
    else data = el.getAttribute(\""@ + extract_attribute(req.params@) + "\");
    return JSON.stringify({ data: data });
})();
"@
        },
        GoalType::Scroll => "
window.scrollBy(0, "@ + signed_decimal(scroll_delta(req.params@)) + ");
JSON.stringify({ scrolled: true, scrollY: window.scrollY });
"@,
        _ => "JSON.stringify({ \"note\": \"Composite goal - execute steps individually\" });"@,
    }
}

/// JavaScript that performs one goal: navigate, click, fill, submit, wait
/// for, extract from, or scroll; composite goals (login, search,
/// screenshot, custom) yield a note that their steps run one by one.
pub fn generate_goal_script(request: &GoalRequest) -> (r: String)
    requires
        scroll_delta_defined(*request),
    ensures
        r@ == goal_script(*request),
{
    let t = escape_quotes_str(request.target.as_str());
    match request.goal_type {
        GoalType::Navigate => {
            let mut r = owned("
window.location.href = \"");
            push_str(&mut r, t.as_str());
            push_str(&mut r, "\";
JSON.stringify({ navigated: true, url: window.location.href });
");
            r
        },
        GoalType::Click => {
            let mut r = owned("
(function() {
    const el = document.querySelector(\"");
            push_str(&mut r, t.as_str());
            push_str(&mut r, "\");
    if (!el) return JSON.stringify({ error: \"element_not_found\", selector: \"");
            push_str(&mut r, t.as_str());
            push_str(&mut r, "\" });
    el.click();
    return JSON.stringify({ clicked: true, selector: \"");
            push_str(&mut r, t.as_str());
            push_str(&mut r, "\" });
})();
");
            r
        },
        GoalType::Fill => {
            let value = escape_quotes_str(param_str_or(&request.params, "value", ""));
            let mut r = owned("
(function() {
    const el = document.querySelector(\"");
            push_str(&mut r, t.as_str());
            push_str(&mut r, "\");
    if (!el) return JSON.stringify({ error: \"element_not_found\", selector: \"");
            push_str(&mut r, t.as_str());
            push_str(&mut r, "\" });
    el.value = \"");
            push_str(&mut r, value.as_str());
            push_str(&mut r, "\";
    el.dispatchEvent(new Event('input', { bubbles: true }));
    el.dispatchEvent(new Event('change', { bubbles: true }));
    return JSON.stringify({ filled: true, selector: \"");
            push_str(&mut r, t.as_str());
            push_str(&mut r, "\" });
})();
");
            r
        },
        GoalType::Submit => {
            let mut r = owned("
(function() {
    const form = document.querySelector(\"");
            push_str(&mut r, t.as_str());
            push_str(&mut r, "\");
    if (!form) return JSON.stringify({ error: \"form_not_found\", selector: \"");
            push_str(&mut r, t.as_str());
            push_str(&mut r, "\" });
    form.submit();
    return JSON.stringify({ submitted: true });
})();
");
            r
        },
        GoalType::Wait => {
            let mut r = owned("
(function() {
    return new Promise((resolve) => {
        const check = () => {
            const el = document.querySelector(\"");
            push_str(&mut r, t.as_str());
            push_str(&mut r, "\");
            if (el) {
                resolve(JSON.stringify({ found: true, selector: \"");
            push_str(&mut r, t.as_str());
            push_str(&mut r, "\" }));
            } else {
                setTimeout(check, 100);
            }
        };
        check();
        setTimeout(() => resolve(JSON.stringify({ error: \"timeout\", selector: \"");
            push_str(&mut r, t.as_str());
            push_str(&mut r, "\" })), ");
            push_decimal(&mut r, request.timeout_ms);
            push_str(&mut r, ");
    });
})();
");
            r
        },
        GoalType::Extract => {
            let all = param_bool_or(&request.params, "all", false);
            let attr = param_str_or(&request.params, "attribute", "text");
            if all {
                let mut r = owned("
(function() {
    const elements = Array.from(document.querySelectorAll(\"");
                push_str(&mut r, t.as_str());
                push_str(&mut r, "\"));
    if (elements.length === 0) return JSON.stringify({ error: \"no_elements\", selector: \"");
                push_str(&mut r, t.as_str());
                push_str(&mut r, "\" });
    const data = elements.map(el => {
        if (\"");
                push_str(&mut r, attr);
                push_str(&mut r, "\" === \"text\") return el.textContent.trim();
        if (\"");
                push_str(&mut r, attr);
                push_str(&mut r, "\" === \"html\") return el.innerHTML;
        return el.getAttribute(\"");
                push_str(&mut r, attr);
                push_str(&mut r, "\");
    });
    return JSON.stringify({ data: data, count: data.length });
})();
");
                r
            } else {
                let mut r = owned("
(function() {
    const el = document.querySelector(\"");
                push_str(&mut r, t.as_str());
                push_str(&mut r, "\");
    if (!el) return JSON.stringify({ error: \"element_not_found\", selector: \"");
                push_str(&mut r, t.as_str());
                push_str(&mut r, "\" });
    let data;
    if (\"");
                push_str(&mut r, attr);
                push_str(&mut r, "\" === \"text\") data = el.textContent.trim();
    else if (\"");
                push_str(&mut r, attr);
                push_str(&mut r, "\" === \"html\") data = el.innerHTML;
    else data = el.getAttribute(\"");
                push_str(&mut r, attr);
                push_str(&mut r, "\");
    return JSON.stringify({ data: data });
})();
");
                r
            }
        },
        GoalType::Scroll => {
            let direction = param_str_or(&request.params, "direction", "down");
            let amount = param_u64_or(&request.params, "amount", 500);
            let signed: i64 = amount as i64;
            let delta: i64 = if str_eq(direction, "up") { -signed } else { signed };
            let mut r = owned("
window.scrollBy(0, ");
            push_signed_decimal(&mut r, delta);
            push_str(&mut r, ");
JSON.stringify({ scrolled: true, scrollY: window.scrollY });
");
            r
        },
        _ => owned("JSON.stringify({ \"note\": \"Composite goal - execute steps individually\" });"),
    }
}


// ---------------------------------------------------------------------------
// Flows
// ---------------------------------------------------------------------------

/// A named sequence of goals.
#[derive(Debug)]
pub struct PresetFlow {
    pub name: String,
    pub description: String,
    pub steps: Vec<GoalRequest>,
}

impl Keyed for PresetFlow {
    open spec fn key_view(&self) -> Seq<char> {
        self.name@
    }

    fn key_str(&self) -> (r: &str) {
        self.name.as_str()
    }
}

/// A step as a row: kind, target, parameters, timeout.
pub type StepRow = (GoalType, Seq<char>, Seq<(Seq<char>, ParamView)>, u64);

/// A flow as a row: name, description, steps.
pub type FlowRow = (Seq<char>, Seq<char>, Seq<StepRow>);

/// The row of a step.
pub open spec fn step_row(g: GoalRequest) -> StepRow {
    (g.goal_type, g.target@, param_views(g.params@), g.timeout_ms)
}

/// The rows of some steps.
pub open spec fn step_rows(s: Seq<GoalRequest>) -> Seq<StepRow> {
    s.map_values(|g: GoalRequest| step_row(g))
}

/// The row of a flow.
pub open spec fn flow_row(f: PresetFlow) -> FlowRow {
    (f.name@, f.description@, step_rows(f.steps@))
}

/// Every step of `f` has an empty session, the default retry policy and no
/// chain.
pub open spec fn plain_steps(f: PresetFlow) -> bool {
    forall|j: int| 0 <= j < f.steps@.len() ==> {
        &&& (#[trigger] f.steps@[j]).session@.len() == 0
        &&& is_default_retry(f.steps@[j].retry)
        &&& f.steps@[j].chain is None
    }
}

/// One step of a built-in flow.
fn preset_step(goal_type: GoalType, target: &str, params: Vec<(String, ParamValue)>, timeout_ms: u64) -> (g: GoalRequest)
    ensures
        step_row(g) == (goal_type, target@, param_views(params@), timeout_ms),
        g.session@.len() == 0,
        is_default_retry(g.retry),
        g.chain is None,
{
    GoalRequest {
        session: String::new(),
        goal_type,
        target: owned(target),
        params,
        retry: RetryConfig::default(),
        timeout_ms,
        chain: None,
    }
}

/// The built-in flows, in order: name, description, and the steps as
/// rows (kind, target, parameters, timeout).
pub open spec fn flow_table() -> Seq<FlowRow> {
    seq![
        ("login"@, "Standard login flow with username and password"@, seq![
            (GoalType::Wait, "form"@, seq![], 10000u64),
            (GoalType::Fill, "input[type='email'], input[name='username'], input[name='email'], #email, #username"@, seq![("value"@, ParamView::Str("{{username}}"@))], 5000u64),
            (GoalType::Fill, "input[type='password'], input[name='password'], #password"@, seq![("value"@, ParamView::Str("{{password}}"@))], 5000u64),
            (GoalType::Click, "button[type='submit'], input[type='submit'], button:contains('Login'), button:contains('Sign in')"@, seq![], 5000u64)
        ]),
        ("search"@, "Standard search flow"@, seq![
            (GoalType::Wait, "input[type='search'], input[name='q'], input[name='query'], #search, .search-input"@, seq![], 10000u64),
            (GoalType::Fill, "input[type='search'], input[name='q'], input[name='query'], #search, .search-input"@, seq![("value"@, ParamView::Str("{{query}}"@))], 5000u64),
            (GoalType::Submit, "form"@, seq![], 5000u64)
        ]),
        ("extract_list"@, "Extract list of items from page"@, seq![
            (GoalType::Wait, "{{container}}"@, seq![], 10000u64),
            (GoalType::Extract, "{{item_selector}}"@, seq![("all"@, ParamView::Bool(true)), ("fields"@, ParamView::Str("{{fields}}"@))], 15000u64)
        ])
    ]
}

#[verifier::rlimit(60)]
/// The built-in flows: login, search and list extraction.  Every step has
/// an empty session, the default retry policy and no chain.
pub fn get_preset_flows() -> (v: Vec<PresetFlow>)
    ensures
        v@.len() == flow_table().len(),
        forall|i: int| 0 <= i < v@.len() ==> flow_row(#[trigger] v@[i]) == flow_table()[i] && plain_steps(v@[i]),
{
    let mut v: Vec<PresetFlow> = Vec::new();
    let steps: Vec<GoalRequest> = vec![
        preset_step(GoalType::Wait, "form", vec![], 10000),
        preset_step(GoalType::Fill, "input[type='email'], input[name='username'], input[name='email'], #email, #username", vec![(owned("value"), ParamValue::Str(owned("{{username}}")))], 5000),
        preset_step(GoalType::Fill, "input[type='password'], input[name='password'], #password", vec![(owned("value"), ParamValue::Str(owned("{{password}}")))], 5000),
        preset_step(GoalType::Click, "button[type='submit'], input[type='submit'], button:contains('Login'), button:contains('Sign in')", vec![], 5000)
    ];
    let f = PresetFlow { name: owned("login"), description: owned("Standard login flow with username and password"), steps };
    assert(step_rows(f.steps@)[0] == flow_table()[0].2[0]);
    assert(step_rows(f.steps@)[1] == flow_table()[0].2[1]);
    assert(step_rows(f.steps@)[2] == flow_table()[0].2[2]);
    assert(step_rows(f.steps@)[3] == flow_table()[0].2[3]);
    assert(flow_row(f).2 =~= flow_table()[0].2);
    assert(flow_row(f) == flow_table()[0]);
    v.push(f);
    let steps: Vec<GoalRequest> = vec![
        preset_step(GoalType::Wait, "input[type='search'], input[name='q'], input[name='query'], #search, .search-input", vec![], 10000),
        preset_step(GoalType::Fill, "input[type='search'], input[name='q'], input[name='query'], #search, .search-input", vec![(owned("value"), ParamValue::Str(owned("{{query}}")))], 5000),
        preset_step(GoalType::Submit, "form", vec![], 5000)
    ];
    let f = PresetFlow { name: owned("search"), description: owned("Standard search flow"), steps };
    assert(step_rows(f.steps@)[0] == flow_table()[1].2[0]);
    assert(step_rows(f.steps@)[1] == flow_table()[1].2[1]);
    assert(step_rows(f.steps@)[2] == flow_table()[1].2[2]);
    assert(flow_row(f).2 =~= flow_table()[1].2);
    assert(flow_row(f) == flow_table()[1]);
    v.push(f);
    let steps: Vec<GoalRequest> = vec![
        preset_step(GoalType::Wait, "{{container}}", vec![], 10000),
        preset_step(GoalType::Extract, "{{item_selector}}", vec![(owned("all"), ParamValue::Bool(true)), (owned("fields"), ParamValue::Str(owned("{{fields}}")))], 15000)
    ];
    let f = PresetFlow { name: owned("extract_list"), description: owned("Extract list of items from page"), steps };
    assert(step_rows(f.steps@)[0] == flow_table()[2].2[0]);
    assert(step_rows(f.steps@)[1] == flow_table()[2].2[1]);
    assert(flow_row(f).2 =~= flow_table()[2].2);
    assert(flow_row(f) == flow_table()[2]);
    v.push(f);
    v
}

/// The flow `row` is named `name`, ignoring ASCII case.
pub open spec fn flow_named(row: FlowRow, name: Seq<char>) -> bool {
    eq_ignore_ascii_case_seq(row.0, name)
}

/// The first built-in flow whose name equals `name` ignoring ASCII case.
pub fn find_preset_flow(name: &str) -> (r: Option<PresetFlow>)
    ensures
        match r {
            Some(f) => exists|i: int| 0 <= i < flow_table().len() && flow_row(f) == flow_table()[i]
                && plain_steps(f) && flow_named(flow_table()[i], name@)
                && forall|j: int| 0 <= j < i ==> !flow_named(#[trigger] flow_table()[j], name@),
            None => forall|i: int| 0 <= i < flow_table().len() ==> !flow_named(#[trigger] flow_table()[i], name@),
        },
{
    let mut flows = get_preset_flows();
    let mut i: usize = 0;
    while i < flows.len()
        invariant
            flows@.len() == flow_table().len(),
            forall|k: int| 0 <= k < flows@.len() ==> flow_row(#[trigger] flows@[k]) == flow_table()[k] && plain_steps(flows@[k]),
            i <= flows@.len(),
            forall|j: int| 0 <= j < i ==> !flow_named(#[trigger] flow_table()[j], name@),
        decreases flows@.len() - i,
    {
        if str_eq_ignore_ascii_case(flows[i].name.as_str(), name) {
            let ghost at = i as int;
            assert(flow_row(flows@[at]) == flow_table()[at]);
            let f = flows.remove(i);
            return Some(f);
        }
        assert(flow_row(flows@[i as int]) == flow_table()[i as int]);
        i = i + 1;
    }
    None
}

impl Named for String {
    open spec fn name_view(&self) -> Seq<char> {
        self@
    }

    fn name_str(&self) -> (r: &str) {
        self.as_str()
    }
}

/// The flow names `list` reports: the registered names, then each built-in
/// name not among them.
pub open spec fn listed_flow_names(custom: Set<Seq<char>>) -> Seq<Seq<char>> {
    flow_table().map_values(|row: FlowRow| row.0).filter(|n: Seq<char>| !custom.contains(n))
}

/// Custom flows by name.
#[derive(Debug)]
pub struct FlowRegistry {
    pub flows: Table<PresetFlow>,
}

impl FlowRegistry {
    /// Well-formedness of the flow table.
    pub open spec fn wf(&self) -> bool {
        self.flows.wf()
    }

    /// No custom flows.
    pub fn new() -> (r: Self)
        ensures
            r.wf(),
            r.flows@ == Map::<Seq<char>, PresetFlow>::empty(),
    {
        FlowRegistry { flows: Table::new() }
    }

    /// Registers `flow` under its name, replacing a flow of that name.
    pub fn register(&mut self, flow: PresetFlow)
        requires
            old(self).wf(),
        ensures
            final(self).wf(),
            final(self).flows@ == old(self).flows@.insert(flow.name@, flow),
    {
        let _ = self.flows.insert(flow);
    }

    /// The flow named `name`: a copy of the registered one with exactly that
    /// name (the same in every field), else the built-in one with that name
    /// ignoring ASCII case.
    pub fn get(&self, name: &str) -> (r: Option<PresetFlow>)
        requires
            self.wf(),
        ensures
            self.flows@.contains_key(name@) ==> (r matches Some(f) && same_flow(f, self.flows@[name@])
                && flow_row(f) == flow_row(self.flows@[name@])),
            !self.flows@.contains_key(name@) ==> match r {
                Some(f) => exists|i: int| 0 <= i < flow_table().len() && flow_row(f) == flow_table()[i]
                    && flow_named(flow_table()[i], name@),
                None => forall|i: int| 0 <= i < flow_table().len() ==> !flow_named(#[trigger] flow_table()[i], name@),
            },
    {
        match self.flows.get(name) {
            Some(f) => Some(f.clone_flow()),
            None => find_preset_flow(name),
        }
    }

    /// Every available flow name, sorted: the registered names and the
    /// built-in names not registered.
    pub fn list(&self) -> (r: Vec<String>)
        requires
            self.wf(),
        ensures
            sorted_by_name(r@),
            views(r@).to_multiset() == (self.flows.records().map_values(|f: PresetFlow| f.name@)
                + listed_flow_names(self.flows@.dom())).to_multiset(),
    {
        let all = self.flows.values();
        let ghost customs = all@.map_values(|f: PresetFlow| f.name@);
        let mut names: Vec<String> = Vec::new();
        let mut i: usize = 0;
        while i < all.len()
            invariant
                i <= all@.len(),
                customs == all@.map_values(|f: PresetFlow| f.name@),
                names@.len() == i,
                views(names@) == customs.take(i as int),
            decreases all@.len() - i,
        {
            let ghost prev = names@;
            names.push(all[i].name.clone());
            proof {
                assert forall|k: int| 0 <= k < i + 1 implies #[trigger] views(names@)[k] == customs.take(i + 1)[k] by {
                    if k < i {
                        assert(names@[k] == prev[k]);
                        assert(views(prev)[k] == customs.take(i as int)[k]);
                    }
                }
                assert(views(names@) =~= customs.take(i + 1));
            }
            i = i + 1;
        }
        assert(customs.take(i as int) =~= customs);
        let presets = get_preset_flows();
        let ghost table_names = flow_table().map_values(|row: FlowRow| row.0);
        let ghost pred = |n: Seq<char>| !self.flows@.dom().contains(n);
        let mut k: usize = 0;
        while k < presets.len()
            invariant
                self.flows.wf(),
                presets@.len() == flow_table().len(),
                forall|q: int| 0 <= q < presets@.len() ==> flow_row(#[trigger] presets@[q]) == flow_table()[q],
                k <= presets@.len(),
                table_names == flow_table().map_values(|row: FlowRow| row.0),
                pred == |n: Seq<char>| !self.flows@.dom().contains(n),
                views(names@).len() == names@.len(),
                views(names@) == customs + table_names.take(k as int).filter(pred),
            decreases presets@.len() - k,
        {
            let ghost t = table_names.take(k + 1);
            assert(flow_row(presets@[k as int]) == flow_table()[k as int]);
            assert(t.drop_last() =~= table_names.take(k as int));
            assert(t.last() == presets@[k as int].name@);
            reveal(Seq::filter);
            if !self.flows.contains_key(presets[k].name.as_str()) {
                let ghost prev = names@;
                names.push(presets[k].name.clone());
                proof {
                    assert(pred(t.last()));
                    assert(t.filter(pred) == t.drop_last().filter(pred).push(t.last()));
                    assert forall|q: int| 0 <= q < names@.len() implies #[trigger] views(names@)[q] == (customs + t.filter(pred))[q] by {
                        if q < prev.len() {
                            assert(names@[q] == prev[q]);
                            assert(views(prev)[q] == (customs + t.drop_last().filter(pred))[q]);
                        }
                    }
                    assert(views(names@) =~= customs + t.filter(pred));
                }
            } else {
                assert(t.filter(pred) == t.drop_last().filter(pred));
            }
            k = k + 1;
        }
        assert(table_names.take(k as int) =~= table_names);
        let r = sort_by_name::<String, Seq<char>>(names, Ghost(|s: String| s@));
        assert(views(r@) =~= r@.map_values(|s: String| s@));
        r
    }
}

/// `a` and `b` hold the same retry policy.
pub open spec fn same_retry(a: RetryConfig, b: RetryConfig) -> bool {
    &&& a.max_retries == b.max_retries
    &&& a.initial_delay_ms == b.initial_delay_ms
    &&& a.multiplier_thousandths == b.multiplier_thousandths
    &&& a.max_delay_ms == b.max_delay_ms
    &&& a.retry_on@ == b.retry_on@
}

/// `a` and `b` are the same step: session, kind, target, parameters, retry
/// policy, timeout, and chain step by step.
pub open spec fn same_step(a: GoalRequest, b: GoalRequest) -> bool
    decreases a,
{
    &&& a.session == b.session
    &&& a.goal_type == b.goal_type
    &&& a.target == b.target
    &&& a.params@ == b.params@
    &&& same_retry(a.retry, b.retry)
    &&& a.timeout_ms == b.timeout_ms
    &&& match a.chain {
        None => b.chain is None,
        Some(x) => {
            proof {
                assert(decreases_to!(a => a.chain));
                assert(decreases_to!(a.chain => a.chain->0));
                assert(decreases_to!(a.chain->0 => (a.chain->0)@));
            }
            b.chain is Some && same_steps(x@, b.chain->0@)
        },
    }
}

/// `xs` and `ys` are the same steps, in order.
pub open spec fn same_steps(xs: Seq<GoalRequest>, ys: Seq<GoalRequest>) -> bool
    decreases xs,
{
    if xs.len() == 0 {
        ys.len() == 0
    } else {
        proof {
            assert(decreases_to!(xs => xs.subrange(0, xs.len() - 1)));
            assert(decreases_to!(xs => xs[xs.len() - 1]));
        }
        &&& ys.len() == xs.len()
        &&& same_steps(xs.subrange(0, xs.len() - 1), ys.subrange(0, ys.len() - 1))
        &&& same_step(xs[xs.len() - 1], ys[ys.len() - 1])
    }
}

/// Same steps, and one more the same step at the end.
proof fn lemma_same_steps_push(xs: Seq<GoalRequest>, ys: Seq<GoalRequest>, x: GoalRequest, y: GoalRequest)
    requires
        same_steps(xs, ys),
        same_step(x, y),
    ensures
        same_steps(xs.push(x), ys.push(y)),
{
    assert(same_steps(xs, ys) ==> xs.len() == ys.len()) by {
        if xs.len() > 0 {}
    }
    assert(xs.push(x).subrange(0, xs.len() as int) =~= xs);
    assert(ys.push(y).subrange(0, ys.len() as int) =~= ys);
}

/// Same steps have the same rows.
proof fn lemma_same_steps_rows(xs: Seq<GoalRequest>, ys: Seq<GoalRequest>)
    requires
        same_steps(xs, ys),
    ensures
        step_rows(xs) == step_rows(ys),
    decreases xs.len(),
{
    if xs.len() > 0 {
        let n = xs.len() - 1;
        assert(ys.len() == xs.len());
        assert(same_step(xs[n], ys[n]));
        assert(step_row(xs[n]) == step_row(ys[n]));
        lemma_same_steps_rows(xs.subrange(0, n), ys.subrange(0, n));
        assert(step_rows(xs) =~= step_rows(xs.subrange(0, n)).push(step_row(xs[n])));
        assert(step_rows(ys) =~= step_rows(ys.subrange(0, n)).push(step_row(ys[n])));
    } else {
        assert(ys.len() == 0);
        assert(step_rows(xs) =~= step_rows(ys));
    }
}

/// A copy of a retry policy.
pub fn duplicate_retry(c: &RetryConfig) -> (r: RetryConfig)
    ensures
        same_retry(r, *c),
{
    RetryConfig {
        max_retries: c.max_retries,
        initial_delay_ms: c.initial_delay_ms,
        multiplier_thousandths: c.multiplier_thousandths,
        max_delay_ms: c.max_delay_ms,
        retry_on: crate::session_v2::clone_strings(&c.retry_on),
    }
}

/// A copy of a step: the same session, kind, target, parameters, retry
/// policy and timeout, its chain copied step by step.
pub fn duplicate_step(g: &GoalRequest) -> (r: GoalRequest)
    ensures
        same_step(r, *g),
        step_row(r) == step_row(*g),
    decreases g,
{
    let mut params: Vec<(String, ParamValue)> = Vec::new();
    let mut i: usize = 0;
    while i < g.params.len()
        invariant
            i <= g.params@.len(),
            params@ == g.params@.take(i as int),
        decreases g.params@.len() - i,
    {
        let v = match &g.params[i].1 {
            ParamValue::Str(s) => ParamValue::Str(s.clone()),
            ParamValue::Bool(b) => ParamValue::Bool(*b),
            ParamValue::UInt(n) => ParamValue::UInt(*n),
            ParamValue::Other(j) => ParamValue::Other(j.clone()),
        };
        assert(v == g.params@[i as int].1);
        params.push((g.params[i].0.clone(), v));
        assert(params@ =~= g.params@.take(i + 1));
        i = i + 1;
    }
    assert(g.params@.take(i as int) =~= g.params@);
    let chain = match &g.chain {
        None => None,
        Some(v) => {
            let mut c: Vec<GoalRequest> = Vec::new();
            let mut j: usize = 0;
            assert(v@.take(0) =~= Seq::<GoalRequest>::empty());
            while j < v.len()
                invariant
                    j <= v@.len(),
                    g.chain == Some(*v),
                    same_steps(c@, v@.take(j as int)),
                decreases v@.len() - j,
            {
                proof {
                    assert(decreases_to!(*g => g.chain));
                    assert(decreases_to!(g.chain => g.chain->0));
                    assert(decreases_to!(g.chain->0 => (g.chain->0)@));
                    assert(decreases_to!((g.chain->0)@ => (g.chain->0)@[j as int]));
                }
                let d = duplicate_step(&v[j]);
                proof {
                    lemma_same_steps_push(c@, v@.take(j as int), d, v@[j as int]);
                    assert(v@.take(j as int).push(v@[j as int]) =~= v@.take(j + 1));
                }
                c.push(d);
                j = j + 1;
            }
            assert(v@.take(j as int) =~= v@);
            Some(c)
        },
    };
    let r = GoalRequest {
        session: g.session.clone(),
        goal_type: g.goal_type,
        target: g.target.clone(),
        params,
        retry: duplicate_retry(&g.retry),
        timeout_ms: g.timeout_ms,
        chain,
    };
    assert(same_step(r, *g));
    r
}

/// `a` and `b` are the same flow: name, description and steps.
pub open spec fn same_flow(a: PresetFlow, b: PresetFlow) -> bool {
    &&& a.name == b.name
    &&& a.description == b.description
    &&& same_steps(a.steps@, b.steps@)
}

impl PresetFlow {
    /// A copy of this flow: the same name, description and steps.
    pub fn clone_flow(&self) -> (r: Self)
        ensures
            same_flow(r, *self),
            flow_row(r) == flow_row(*self),
    {
        let mut steps: Vec<GoalRequest> = Vec::new();
        let mut i: usize = 0;
        assert(self.steps@.take(0) =~= Seq::<GoalRequest>::empty());
        while i < self.steps.len()
            invariant
                i <= self.steps@.len(),
                same_steps(steps@, self.steps@.take(i as int)),
            decreases self.steps@.len() - i,
        {
            let d = duplicate_step(&self.steps[i]);
            proof {
                lemma_same_steps_push(steps@, self.steps@.take(i as int), d, self.steps@[i as int]);
                assert(self.steps@.take(i as int).push(self.steps@[i as int]) =~= self.steps@.take(i + 1));
            }
            steps.push(d);
            i = i + 1;
        }
        assert(self.steps@.take(i as int) =~= self.steps@);
        proof {
            lemma_same_steps_rows(steps@, self.steps@);
        }
        PresetFlow { name: self.name.clone(), description: self.description.clone(), steps }
    }
}

// ---------------------------------------------------------------------------
// Laws
// ---------------------------------------------------------------------------

/// A scroll goal moves the page by its amount: upward (a negative vertical
/// offset) exactly when its `direction` parameter is the text `up`, and
/// downward (the positive amount) for any other direction or none.
pub proof fn law_scroll_direction(req: GoalRequest, a: u64)
    requires
        req.goal_type == GoalType::Scroll,
        param_lookup(param_views(req.params@), "amount"@) == Some(ParamView::UInt(a)),
        0 < a <= i64::MAX,
    ensures
        param_lookup(param_views(req.params@), "direction"@) == Some(ParamView::Str("up"@))
            ==> goal_script(req) == "
window.scrollBy(0, "@ + seq!['-'] + decimal(a as nat) + ");
JSON.stringify({ scrolled: true, scrollY: window.scrollY });
"@,
        param_lookup(param_views(req.params@), "direction"@) != Some(ParamView::Str("up"@))
            ==> goal_script(req) == "
window.scrollBy(0, "@ + decimal(a as nat) + ");
JSON.stringify({ scrolled: true, scrollY: window.scrollY });
"@,
{
    reveal_strlit("up");
    reveal_strlit("down");
    assert("up"@ != "down"@) by {
        assert("up"@.len() != "down"@.len());
    }
    assert(scroll_amount(req.params@) == a);
    assert((a as i64) as int == a as int);
    if param_lookup(param_views(req.params@), "direction"@) == Some(ParamView::Str("up"@)) {
        assert(scroll_up(req.params@));
        assert(scroll_delta(req.params@) == -(a as int));
        assert(signed_decimal(-(a as int)) == seq!['-'] + decimal(a as nat));
    } else {
        assert(!scroll_up(req.params@));
        assert(scroll_delta(req.params@) == a as int);
    }
}

} // verus!
