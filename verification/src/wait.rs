//! Waiting on pages: the conditions a wait can watch for, and the script
//! that waits for them with a MutationObserver.

use vstd::prelude::*;
use vstd::string::*;
use crate::json::{json_or_empty, selectors_json};
use crate::text::{contains_seq, decimal, escape_quotes, escape_quotes_str, occurs_at, owned, push_decimal, push_str, views};

verus! {

/// What a wait watches for.
#[derive(Debug, Clone, Copy, PartialEq, Eq, Structural)]
pub enum WaitCondition {
    /// The element is in the DOM.
    Present,
    /// The element is visible.
    Visible,
    /// Nothing changed for the stability period.
    Stable,
    /// The element's text contains the given text.
    TextContains,
    /// The element's text matches the given pattern.
    TextMatches,
    /// An attribute has the given value.
    AttributeEquals,
    /// The element is visible and enabled.
    Clickable,
    /// The element is gone.
    Detached,
    /// Navigation completed.
    NavigationComplete,
    /// No request pending.
    NetworkIdle,
}

impl Default for WaitCondition {
    fn default() -> (r: Self)
        ensures
            r == WaitCondition::Present,
    {
        WaitCondition::Present
    }
}

/// A wait request.
#[derive(Debug, Clone)]
pub struct WaitRequest {
    pub session: String,
    pub selector: String,
    pub condition: WaitCondition,
    pub timeout_ms: u64,
    /// Text for the text conditions.
    pub text: Option<String>,
    /// Attribute for `AttributeEquals`.
    pub attribute: Option<String>,
    /// Value for `AttributeEquals`.
    pub value: Option<String>,
    /// Stability period for `Stable`.
    pub stable_ms: u64,
    pub extract: Option<ExtractOptions>,
    /// Several selectors, in place of `selector`.
    pub selectors: Option<Vec<String>>,
    /// Wait for all selectors (else any).
    pub wait_all: bool,
    /// Target frame.
    pub frame: Option<String>,
}

/// Wait timeout unless told otherwise.
pub fn default_timeout() -> (r: u64)
    ensures
        r == 30000,
{
    30000
}

/// Stability period unless told otherwise.
pub fn default_stable_ms() -> (r: u64)
    ensures
        r == 500,
{
    500
}

/// What to extract once the wait succeeds.
#[derive(Debug, Clone)]
pub struct ExtractOptions {
    pub attribute: String,
    pub all: bool,
}

/// What is extracted unless told otherwise.
pub fn default_extract_attr() -> (r: String)
    ensures
        r@ == "text"@,
{
    owned("text")
}

/// The outcome of a wait; `data` is JSON text.
#[derive(Debug, Clone)]
pub struct WaitResponse {
    pub success: bool,
    pub matched_selector: Option<String>,
    pub elapsed_ms: u64,
    pub data: Option<String>,
    pub condition: WaitCondition,
}

/// Several selectors to wait for.
#[derive(Debug, Clone)]
pub struct MultiWaitRequest {
    pub session: String,
    pub selectors: Vec<SelectorWithCondition>,
    pub wait_all: bool,
    pub timeout_ms: u64,
}

/// A selector with its own condition.
#[derive(Debug, Clone)]
pub struct SelectorWithCondition {
    pub selector: String,
    pub condition: WaitCondition,
    pub extract: Option<ExtractOptions>,
}

/// The name of a condition in the script.
pub open spec fn condition_name(c: WaitCondition) -> Seq<char> {
    match c {
        WaitCondition::Present => "present"@,
        WaitCondition::Visible => "visible"@,
        WaitCondition::Stable => "stable"@,
        WaitCondition::TextContains => "text_contains"@,
        WaitCondition::TextMatches => "text_matches"@,
        WaitCondition::AttributeEquals => "attribute_equals"@,
        WaitCondition::Clickable => "clickable"@,
        WaitCondition::Detached => "detached"@,
        WaitCondition::NavigationComplete => "navigation_complete"@,
        WaitCondition::NetworkIdle => "network_idle"@,
    }
}

/// The name of a condition in the script.
pub fn condition_str(c: WaitCondition) -> (r: &'static str)
    ensures
        r@ == condition_name(c),
{
    match c {
        WaitCondition::Present => "present",
        WaitCondition::Visible => "visible",
        WaitCondition::Stable => "stable",
        WaitCondition::TextContains => "text_contains",
        WaitCondition::TextMatches => "text_matches",
        WaitCondition::AttributeEquals => "attribute_equals",
        WaitCondition::Clickable => "clickable",
        WaitCondition::Detached => "detached",
        WaitCondition::NavigationComplete => "navigation_complete",
        WaitCondition::NetworkIdle => "network_idle",
    }
}

/// `true` or `false`.
pub open spec fn bool_text(b: bool) -> Seq<char> {
    if b { "true"@ } else { "false"@ }
}

/// `true` or `false`.
pub fn bool_str(b: bool) -> (r: &'static str)
    ensures
        r@ == bool_text(b),
{
    if b { "true" } else { "false" }
}

/// A double-quoted string with its quotes escaped.
pub fn quoted(s: &str) -> (r: String)
    ensures
        r@ == "\""@ + escape_quotes(s@) + "\""@,
{
    let mut r = owned("\"");
    let e = escape_quotes_str(s);
    push_str(&mut r, e.as_str());
    push_str(&mut r, "\"");
    r
}

/// The quoted text, or `null`.
pub open spec fn quoted_or_null(o: Option<String>) -> Seq<char> {
    match o {
        Some(t) => "\""@ + escape_quotes(t@) + "\""@,
        None => "null"@,
    }
}

/// The quoted text, or `null`.
pub fn quoted_or_null_str(o: &Option<String>) -> (r: String)
    ensures
        r@ == quoted_or_null(*o),
{
    match o {
        Some(t) => quoted(t.as_str()),
        None => owned("null"),
    }
}

/// The quoted attribute to extract, or `null`.
pub open spec fn extract_attr_text(e: Option<ExtractOptions>) -> Seq<char> {
    match e {
        Some(x) => "\""@ + escape_quotes(x.attribute@) + "\""@,
        None => "null"@,
    }
}

/// The selectors of a wait as a JSON array: the list when given (`[]` if it
/// cannot be encoded), else the one selector, quotes escaped.
pub open spec fn selectors_text(req: WaitRequest) -> Seq<char> {
    match req.selectors {
        Some(v) => json_or_empty(views(v@)),
        None => "[\""@ + escape_quotes(req.selector@) + "\"]"@,
    }
}

/// The text `generate_wait_script` produces.
pub open spec fn wait_script(req: WaitRequest) -> Seq<char> {
    "
(function() {
    const config = {
        selectors: "@ + selectors_text(req) + ",
        condition: \""@ + condition_name(req.condition) + "\",
        timeout: "@ + decimal(req.timeout_ms as nat) + ",
        stableMs: "@ + decimal(req.stable_ms as nat) + ",
        waitAll: "@ + bool_text(req.wait_all) + ",
        text: "@ + quoted_or_null(req.text) + ",
        attribute: "@ + quoted_or_null(req.attribute) + ",
        value: "@ + quoted_or_null(req.value) + ",
        extractAttr: "@ + extract_attr_text(req.extract) + ",
        extractAll: "@ + bool_text(req.extract matches Some(e) && e.all) + "
    };
    
    const startTime = Date.now();
    let lastChange = Date.now();
    let observer = null;
    let resolvePromise = null;
    
    // Check if element meets condition
    function checkCondition(el, selector) {
        if (!el) return { met: false };
        
        switch (config.condition) {
            case 'present':
                return { met: true, selector };
            
            case 'visible':
                const style = getComputedStyle(el);
                const isVisible = style.display !== 'none' && 
                                  style.visibility !== 'hidden' &&
                                  style.opacity !== '0' &&
                                  el.offsetParent !== null;
                return { met: isVisible, selector };
            
            case 'clickable':
                const cs = getComputedStyle(el);
                const clickable = cs.display !== 'none' && 
                                  cs.visibility !== 'hidden' &&
                                  !el.disabled &&
                                  cs.pointerEvents !== 'none';
                return { met: clickable, selector };
            
            case 'text_contains':
                if (!config.text) return { met: false };
                return { met: el.textContent.includes(config.text), selector };
            
            case 'text_matches':
                if (!config.text) return { met: false };
                try {
                    const regex = new RegExp(config.text);
                    return { met: regex.test(el.textContent), selector };
                } catch { return { met: false }; }
            
            case 'attribute_equals':
                if (!config.attribute) return { met: false };
                const attrValue = el.getAttribute(config.attribute);
                return { met: attrValue === config.value, selector };
            
            case 'stable':
                // Stable means no DOM changes for stableMs
                if (Date.now() - lastChange >= config.stableMs) {
                    return { met: true, selector };
                }
                return { met: false };
            
            case 'detached':
                return { met: false }; // Element exists, so not detached
            
            default:
                return { met: true, selector };
        }
    }
    
    // Check all selectors
    function checkAllSelectors() {
        let metCount = 0;
        let firstMatch = null;
        
        for (const selector of config.selectors) {
            const el = document.querySelector(selector);
            
            // For detached condition, check if element is gone
            if (config.condition === 'detached') {
                if (!el) {
                    if (!firstMatch) firstMatch = { met: true, selector };
                    metCount++;
                }
                continue;
            }
            
            const result = checkCondition(el, selector);
            if (result.met) {
                if (!firstMatch) firstMatch = result;
                metCount++;
            }
        }
        
        if (config.waitAll) {
            return metCount === config.selectors.length ? firstMatch : null;
        } else {
            return firstMatch;
        }
    }
    
    // Extract data from element
    function extractData(selector) {
        if (!config.extractAttr) return null;
        
        const elements = config.extractAll 
            ? Array.from(document.querySelectorAll(selector))
            : [document.querySelector(selector)].filter(Boolean);
        
        const data = elements.map(el => {
            switch (config.extractAttr) {
                case 'text': return el.textContent.trim();
                case 'innerHTML': return el.innerHTML;
                case 'outerHTML': return el.outerHTML;
                case 'value': return el.value;
                default: return el.getAttribute(config.extractAttr);
            }
        });
        
        return config.extractAll ? data : data[0];
    }
    
    return new Promise((resolve) => {
        resolvePromise = resolve;
        
        // Initial check
        const initial = checkAllSelectors();
        if (initial && config.condition !== 'stable') {
            const data = extractData(initial.selector);
            resolve({
                success: true,
                matched_selector: initial.selector,
                elapsed_ms: Date.now() - startTime,
                data: data,
                condition: config.condition
            });
            return;
        }
        
        // Set up MutationObserver
        observer = new MutationObserver((mutations) => {
            lastChange = Date.now();
            
            const result = checkAllSelectors();
            if (result) {
                observer.disconnect();
                const data = extractData(result.selector);
                resolvePromise({
                    success: true,
                    matched_selector: result.selector,
                    elapsed_ms: Date.now() - startTime,
                    data: data,
                    condition: config.condition
                });
            }
        });
        
        observer.observe(document.body, {
            childList: true,
            subtree: true,
            attributes: true,
            characterData: true
        });
        
        // Stability check interval (for stable condition)
        if (config.condition === 'stable') {
            const stableInterval = setInterval(() => {
                if (Date.now() - lastChange >= config.stableMs) {
                    clearInterval(stableInterval);
                    observer.disconnect();
                    const selector = config.selectors[0];
                    const data = extractData(selector);
                    resolvePromise({
                        success: true,
                        matched_selector: selector,
                        elapsed_ms: Date.now() - startTime,
                        data: data,
                        condition: config.condition
                    });
                }
            }, 100);
        }
        
        // Timeout
        setTimeout(() => {
            if (observer) observer.disconnect();
            resolvePromise({
                success: false,
                matched_selector: null,
                elapsed_ms: Date.now() - startTime,
                data: null,
                condition: config.condition
            });
        }, config.timeout);
    });
})();
"@
}

/// JavaScript that waits, with a MutationObserver, until the selectors meet
/// the request's condition (any or all of them), then optionally extracts
/// data; it gives up after the timeout.
pub fn generate_wait_script(request: &WaitRequest) -> (r: String)
    ensures
        r@ == wait_script(*request),
{
    let selectors = match &request.selectors {
        Some(v) => selectors_json(v.as_slice()),
        None => {
            let mut s = owned("[\"");
            let e = escape_quotes_str(request.selector.as_str());
            push_str(&mut s, e.as_str());
            push_str(&mut s, "\"]");
            s
        },
    };
    let condition = condition_str(request.condition);
    let text = quoted_or_null_str(&request.text);
    let attr = quoted_or_null_str(&request.attribute);
    let value = quoted_or_null_str(&request.value);
    let extract_attr = match &request.extract {
        Some(e) => quoted(e.attribute.as_str()),
        None => owned("null"),
    };
    let extract_all = match &request.extract {
        Some(e) => e.all,
        None => false,
    };
    let mut r = owned("
(function() {
    const config = {
        selectors: ");
    push_str(&mut r, selectors.as_str());
    push_str(&mut r, ",
        condition: \"");
    push_str(&mut r, condition);
    push_str(&mut r, "\",
        timeout: ");
    push_decimal(&mut r, request.timeout_ms);
    push_str(&mut r, ",
        stableMs: ");
    push_decimal(&mut r, request.stable_ms);
    push_str(&mut r, ",
        waitAll: ");
    push_str(&mut r, bool_str(request.wait_all));
    push_str(&mut r, ",
        text: ");
    push_str(&mut r, text.as_str());
    push_str(&mut r, ",
        attribute: ");
    push_str(&mut r, attr.as_str());
    push_str(&mut r, ",
        value: ");
    push_str(&mut r, value.as_str());
    push_str(&mut r, ",
        extractAttr: ");
    push_str(&mut r, extract_attr.as_str());
    push_str(&mut r, ",
        extractAll: ");
    push_str(&mut r, bool_str(extract_all));
    push_str(&mut r, "
    };
    
    const startTime = Date.now();
    let lastChange = Date.now();
    let observer = null;
    let resolvePromise = null;
    
    // Check if element meets condition
    function checkCondition(el, selector) {
        if (!el) return { met: false };
        
        switch (config.condition) {
            case 'present':
                return { met: true, selector };
            
            case 'visible':
                const style = getComputedStyle(el);
                const isVisible = style.display !== 'none' && 
                                  style.visibility !== 'hidden' &&
                                  style.opacity !== '0' &&
                                  el.offsetParent !== null;
                return { met: isVisible, selector };
            
            case 'clickable':
                const cs = getComputedStyle(el);
                const clickable = cs.display !== 'none' && 
                                  cs.visibility !== 'hidden' &&
                                  !el.disabled &&
                                  cs.pointerEvents !== 'none';
                return { met: clickable, selector };
            
            case 'text_contains':
                if (!config.text) return { met: false };
                return { met: el.textContent.includes(config.text), selector };
            
            case 'text_matches':
                if (!config.text) return { met: false };
                try {
                    const regex = new RegExp(config.text);
                    return { met: regex.test(el.textContent), selector };
                } catch { return { met: false }; }
            
            case 'attribute_equals':
                if (!config.attribute) return { met: false };
                const attrValue = el.getAttribute(config.attribute);
                return { met: attrValue === config.value, selector };
            
            case 'stable':
                // Stable means no DOM changes for stableMs
                if (Date.now() - lastChange >= config.stableMs) {
                    return { met: true, selector };
                }
                return { met: false };
            
            case 'detached':
                return { met: false }; // Element exists, so not detached
            
            default:
                return { met: true, selector };
        }
    }
    
    // Check all selectors
    function checkAllSelectors() {
        let metCount = 0;
        let firstMatch = null;
        
        for (const selector of config.selectors) {
            const el = document.querySelector(selector);
            
            // For detached condition, check if element is gone
            if (config.condition === 'detached') {
                if (!el) {
                    if (!firstMatch) firstMatch = { met: true, selector };
                    metCount++;
                }
                continue;
            }
            
            const result = checkCondition(el, selector);
            if (result.met) {
                if (!firstMatch) firstMatch = result;
                metCount++;
            }
        }
        
        if (config.waitAll) {
            return metCount === config.selectors.length ? firstMatch : null;
        } else {
            return firstMatch;
        }
    }
    
    // Extract data from element
    function extractData(selector) {
        if (!config.extractAttr) return null;
        
        const elements = config.extractAll 
            ? Array.from(document.querySelectorAll(selector))
            : [document.querySelector(selector)].filter(Boolean);
        
        const data = elements.map(el => {
            switch (config.extractAttr) {
                case 'text': return el.textContent.trim();
                case 'innerHTML': return el.innerHTML;
                case 'outerHTML': return el.outerHTML;
                case 'value': return el.value;
                default: return el.getAttribute(config.extractAttr);
            }
        });
        
        return config.extractAll ? data : data[0];
    }
    
    return new Promise((resolve) => {
        resolvePromise = resolve;
        
        // Initial check
        const initial = checkAllSelectors();
        if (initial && config.condition !== 'stable') {
            const data = extractData(initial.selector);
            resolve({
                success: true,
                matched_selector: initial.selector,
                elapsed_ms: Date.now() - startTime,
                data: data,
                condition: config.condition
            });
            return;
        }
        
        // Set up MutationObserver
        observer = new MutationObserver((mutations) => {
            lastChange = Date.now();
            
            const result = checkAllSelectors();
            if (result) {
                observer.disconnect();
                const data = extractData(result.selector);
                resolvePromise({
                    success: true,
                    matched_selector: result.selector,
                    elapsed_ms: Date.now() - startTime,
                    data: data,
                    condition: config.condition
                });
            }
        });
        
        observer.observe(document.body, {
            childList: true,
            subtree: true,
            attributes: true,
            characterData: true
        });
        
        // Stability check interval (for stable condition)
        if (config.condition === 'stable') {
            const stableInterval = setInterval(() => {
                if (Date.now() - lastChange >= config.stableMs) {
                    clearInterval(stableInterval);
                    observer.disconnect();
                    const selector = config.selectors[0];
                    const data = extractData(selector);
                    resolvePromise({
                        success: true,
                        matched_selector: selector,
                        elapsed_ms: Date.now() - startTime,
                        data: data,
                        condition: config.condition
                    });
                }
            }, 100);
        }
        
        // Timeout
        setTimeout(() => {
            if (observer) observer.disconnect();
            resolvePromise({
                success: false,
                matched_selector: null,
                elapsed_ms: Date.now() - startTime,
                data: null,
                condition: config.condition
            });
        }, config.timeout);
    });
})();
");
    r
}

/// The generated observer waits on the attribute and value the request
/// names, each in its own configuration field: `attribute:` holds the
/// requested attribute and `value:` the requested value (each quoted, or
/// `null` when absent), in that order.
pub proof fn law_wait_attribute_fields(req: WaitRequest)
    ensures
        contains_seq(wait_script(req), ",
        attribute: "@ + match req.attribute {
            Some(a) => "\""@ + escape_quotes(a@) + "\""@,
            None => "null"@,
        } + ",
        value: "@ + match req.value {
            Some(v) => "\""@ + escape_quotes(v@) + "\""@,
            None => "null"@,
        }),
{
    let pre = "
(function() {
    const config = {
        selectors: "@ + selectors_text(req) + ",
        condition: \""@ + condition_name(req.condition) + "\",
        timeout: "@ + decimal(req.timeout_ms as nat) + ",
        stableMs: "@ + decimal(req.stable_ms as nat) + ",
        waitAll: "@ + bool_text(req.wait_all) + ",
        text: "@ + quoted_or_null(req.text);
    let p = ",
        attribute: "@ + quoted_or_null(req.attribute) + ",
        value: "@ + quoted_or_null(req.value);
    let w = wait_script(req);
    let i = pre.len() as int;
    assert(w.subrange(i, i + p.len()) =~= p);
    assert(occurs_at(w, p, i));
}

/// The observer's time limits are the requested ones, each in its own
/// field: `timeout:` is the request's timeout and `stableMs:` its stability
/// period (both in milliseconds), and `text:` holds the requested text
/// (quoted, or `null`).
pub proof fn law_wait_timing_fields(req: WaitRequest)
    ensures
        contains_seq(wait_script(req), "\",
        timeout: "@ + decimal(req.timeout_ms as nat) + ",
        stableMs: "@ + decimal(req.stable_ms as nat)),
        contains_seq(wait_script(req), ",
        text: "@ + match req.text {
            Some(t) => "\""@ + escape_quotes(t@) + "\""@,
            None => "null"@,
        } + ",
        attribute: "@),
{
    let pre = "
(function() {
    const config = {
        selectors: "@ + selectors_text(req) + ",
        condition: \""@ + condition_name(req.condition);
    let p = "\",
        timeout: "@ + decimal(req.timeout_ms as nat) + ",
        stableMs: "@ + decimal(req.stable_ms as nat);
    let w = wait_script(req);
    let i = pre.len() as int;
    assert(w.subrange(i, i + p.len()) =~= p);
    assert(occurs_at(w, p, i));
    let pre2 = pre + "\",
        timeout: "@ + decimal(req.timeout_ms as nat) + ",
        stableMs: "@ + decimal(req.stable_ms as nat) + ",
        waitAll: "@ + bool_text(req.wait_all);
    let q = ",
        text: "@ + quoted_or_null(req.text) + ",
        attribute: "@;
    let j = pre2.len() as int;
    assert(w.subrange(j, j + q.len()) =~= q);
    assert(occurs_at(w, q, j));
}

} // verus!
