//! Macros: JavaScript routines run in a page with parameters, the built-in
//! SPA-automation macros, the helper functions every macro may call, and the
//! registry of custom macros (which never overwrites or deletes a built-in).

use vstd::prelude::*;
use vstd::string::*;
use crate::ordering::{Named, sort_by_name, sorted_by_name};
use crate::text::{
    eq_ignore_ascii_case_seq, owned, push_str, str_eq, str_eq_ignore_ascii_case, views,
    opt_str_view,
};

verus! {

/// A macro: a named JavaScript function taking a parameter object.
/// Optional parameters carry their default as JSON text.
#[derive(Debug, Clone)]
pub struct MacroDefinition {
    pub name: String,
    pub description: String,
    pub script: String,
    pub required_params: Vec<String>,
    /// (parameter, default value as JSON text)
    pub optional_params: Vec<(String, String)>,
    pub timeout_ms: u64,
    pub builtin: bool,
}

/// A request to run a macro; parameter values are JSON text.
#[derive(Debug, Clone)]
pub struct MacroExecuteRequest {
    pub session: String,
    pub name: String,
    /// (parameter, value as JSON text)
    pub params: Vec<(String, String)>,
    pub timeout_ms: Option<u64>,
}

/// The outcome of running a macro; `data` is JSON text.
#[derive(Debug, Clone)]
pub struct MacroExecuteResponse {
    pub success: bool,
    pub macro_name: String,
    pub data: Option<String>,
    pub elapsed_ms: u64,
    pub error: Option<String>,
}

/// A request to register a custom macro.
#[derive(Debug, Clone)]
pub struct MacroRegisterRequest {
    pub macro_def: MacroDefinition,
    pub overwrite: bool,
}

/// A detected SPA framework.
#[derive(Debug, Clone, Copy, PartialEq, Eq, Structural)]
pub enum SpaFramework {
    React,
    Vue,
    Angular,
    Svelte,
    NextJs,
    Nuxt,
    Unknown,
    /// No SPA framework detected.
    NoSpa,
}

/// What SPA detection found.
#[derive(Debug, Clone)]
pub struct SpaDetectionResult {
    pub framework: SpaFramework,
    pub version: Option<String>,
    pub hints: Vec<String>,
}

/// Default macro timeout in milliseconds.
pub fn default_timeout() -> (r: u64)
    ensures
        r == 30000,
{
    30000
}

/// A macro as a row: name, description, script, required parameters,
/// optional parameters with JSON defaults, timeout.
pub type MacroRow = (Seq<char>, Seq<char>, Seq<char>, Seq<Seq<char>>, Seq<(Seq<char>, Seq<char>)>, u64);

/// The views of (name, JSON) pairs.
pub open spec fn pair_views(v: Seq<(String, String)>) -> Seq<(Seq<char>, Seq<char>)> {
    v.map_values(|p: (String, String)| (p.0@, p.1@))
}

/// The row of a macro.
pub open spec fn macro_row(m: MacroDefinition) -> MacroRow {
    (m.name@, m.description@, m.script@, views(m.required_params@), pair_views(m.optional_params@), m.timeout_ms)
}

/// The rows of a list of macros.
pub open spec fn macro_rows(s: Seq<MacroDefinition>) -> Seq<MacroRow> {
    s.map_values(|m: MacroDefinition| macro_row(m))
}

/// Rows of a pushed list.
proof fn lemma_rows_push(s: Seq<MacroDefinition>, x: MacroDefinition)
    ensures
        macro_rows(s.push(x)) == macro_rows(s).push(macro_row(x)),
{
    assert(macro_rows(s.push(x)) =~= macro_rows(s).push(macro_row(x)));
}

/// Two macros hold the same values.
pub open spec fn same_macro(a: MacroDefinition, b: MacroDefinition) -> bool {
    macro_row(a) == macro_row(b) && a.builtin == b.builtin
}

impl Named for MacroDefinition {
    open spec fn name_view(&self) -> Seq<char> {
        self.name@
    }

    fn name_str(&self) -> (r: &str) {
        self.name.as_str()
    }
}

/// Duplicates a list of (name, JSON) pairs.
fn clone_pairs(v: &Vec<(String, String)>) -> (r: Vec<(String, String)>)
    ensures
        pair_views(r@) == pair_views(v@),
{
    let mut r: Vec<(String, String)> = Vec::new();
    let mut i: usize = 0;
    while i < v.len()
        invariant
            i <= v@.len(),
            r@.len() == i,
            forall|k: int| 0 <= k < i ==> (#[trigger] r@[k]).0@ == v@[k].0@ && r@[k].1@ == v@[k].1@,
        decreases v@.len() - i,
    {
        r.push((v[i].0.clone(), v[i].1.clone()));
        i = i + 1;
    }
    assert(pair_views(r@) =~= pair_views(v@));
    r
}

impl MacroDefinition {
    /// A copy of this macro.
    pub fn duplicate(&self) -> (r: Self)
        ensures
            same_macro(r, *self),
    {
        MacroDefinition {
            name: self.name.clone(),
            description: self.description.clone(),
            script: self.script.clone(),
            required_params: crate::session_v2::clone_strings(&self.required_params),
            optional_params: clone_pairs(&self.optional_params),
            timeout_ms: self.timeout_ms,
            builtin: self.builtin,
        }
    }
}

/// One built-in macro.
fn preset_macro(
    name: &str,
    description: &str,
    script: &str,
    required: Vec<String>,
    optional: Vec<(String, String)>,
    timeout_ms: u64,
) -> (m: MacroDefinition)
    ensures
        macro_row(m) == (name@, description@, script@, views(required@), pair_views(optional@), timeout_ms),
        m.builtin,
{
    MacroDefinition {
        name: owned(name),
        description: owned(description),
        script: owned(script),
        required_params: required,
        optional_params: optional,
        timeout_ms,
        builtin: true,
    }
}

/// JavaScript that detects the page's SPA framework (React, Vue, Angular,
/// Svelte, Next.js, Nuxt) and reports hints.
pub open spec fn spa_detection_script() -> Seq<char> {
    "
(function() {
    const result = {
        framework: \"none\",
        version: null,
        hints: []
    };
    
    // Check for React
    if (window.__REACT_DEVTOOLS_GLOBAL_HOOK__ || 
        document.querySelector('[data-reactroot]') ||
        document.querySelector('[data-reactid]')) {
        result.framework = \"react\";
        result.hints.push(\"React DevTools hook or data attributes detected\");
        
        // Check for Next.js
        if (window.__NEXT_DATA__ || document.querySelector('#__next')) {
            result.framework = \"nextjs\";
            result.hints.push(\"Next.js detected\");
            if (window.__NEXT_DATA__) {
                result.version = window.__NEXT_DATA__.buildId;
            }
        }
    }
    
    // Check for Vue
    if (window.__VUE__ || 
        document.querySelector('[data-v-]') ||
        window.Vue) {
        if (result.framework === \"none\") {
            result.framework = \"vue\";
            result.hints.push(\"Vue detected\");
        }
        
        // Check for Nuxt
        if (window.__NUXT__ || document.querySelector('#__nuxt')) {
            result.framework = \"nuxt\";
            result.hints.push(\"Nuxt detected\");
        }
    }
    
    // Check for Angular
    if (window.ng || 
        document.querySelector('[ng-version]') ||
        document.querySelector('app-root')) {
        if (result.framework === \"none\") {
            result.framework = \"angular\";
            const versionEl = document.querySelector('[ng-version]');
            if (versionEl) {
                result.version = versionEl.getAttribute('ng-version');
            }
            result.hints.push(\"Angular detected\");
        }
    }
    
    // Check for Svelte
    if (document.querySelector('[class*=\"svelte-\"]')) {
        if (result.framework === \"none\") {
            result.framework = \"svelte\";
            result.hints.push(\"Svelte class names detected\");
        }
    }
    
    if (result.framework === \"none\" && result.hints.length === 0) {
        result.framework = \"unknown\";
        result.hints.push(\"No known SPA framework detected\");
    }
    
    return JSON.stringify(result);
})();
"@
}

/// JavaScript that detects the page's SPA framework (React, Vue, Angular,
/// Svelte, Next.js, Nuxt) and reports hints.
pub fn generate_spa_detection_script() -> (r: String)
    ensures
        r@ == spa_detection_script(),
{
    owned("
(function() {
    const result = {
        framework: \"none\",
        version: null,
        hints: []
    };
    
    // Check for React
    if (window.__REACT_DEVTOOLS_GLOBAL_HOOK__ || 
        document.querySelector('[data-reactroot]') ||
        document.querySelector('[data-reactid]')) {
        result.framework = \"react\";
        result.hints.push(\"React DevTools hook or data attributes detected\");
        
        // Check for Next.js
        if (window.__NEXT_DATA__ || document.querySelector('#__next')) {
            result.framework = \"nextjs\";
            result.hints.push(\"Next.js detected\");
            if (window.__NEXT_DATA__) {
                result.version = window.__NEXT_DATA__.buildId;
            }
        }
    }
    
    // Check for Vue
    if (window.__VUE__ || 
        document.querySelector('[data-v-]') ||
        window.Vue) {
        if (result.framework === \"none\") {
            result.framework = \"vue\";
            result.hints.push(\"Vue detected\");
        }
        
        // Check for Nuxt
        if (window.__NUXT__ || document.querySelector('#__nuxt')) {
            result.framework = \"nuxt\";
            result.hints.push(\"Nuxt detected\");
        }
    }
    
    // Check for Angular
    if (window.ng || 
        document.querySelector('[ng-version]') ||
        document.querySelector('app-root')) {
        if (result.framework === \"none\") {
            result.framework = \"angular\";
            const versionEl = document.querySelector('[ng-version]');
            if (versionEl) {
                result.version = versionEl.getAttribute('ng-version');
            }
            result.hints.push(\"Angular detected\");
        }
    }
    
    // Check for Svelte
    if (document.querySelector('[class*=\"svelte-\"]')) {
        if (result.framework === \"none\") {
            result.framework = \"svelte\";
            result.hints.push(\"Svelte class names detected\");
        }
    }
    
    if (result.framework === \"none\" && result.hints.length === 0) {
        result.framework = \"unknown\";
        result.hints.push(\"No known SPA framework detected\");
    }
    
    return JSON.stringify(result);
})();
")
}

/// The `__wbp2_waitFor` helper: waits for a selector to match.
pub open spec fn wait_for_helper() -> Seq<char> {
    "
window.__wbp2_waitFor = function(selector, options = {}) {
    const timeout = options.timeout || 30000;
    const interval = options.interval || 100;
    const visible = options.visible !== false;
    
    return new Promise((resolve, reject) => {
        const startTime = Date.now();
        
        function check() {
            const el = document.querySelector(selector);
            
            if (el) {
                if (!visible || (el.offsetWidth > 0 && el.offsetHeight > 0)) {
                    resolve(el);
                    return;
                }
            }
            
            if (Date.now() - startTime > timeout) {
                reject(new Error(`Timeout waiting for: ${selector}`));
                return;
            }
            
            setTimeout(check, interval);
        }
        
        check();
    });
};
"@
}

/// The `__wbp2_waitFor` helper: waits for a selector to match.
pub fn generate_wait_for_helper() -> (r: String)
    ensures
        r@ == wait_for_helper(),
{
    owned("
window.__wbp2_waitFor = function(selector, options = {}) {
    const timeout = options.timeout || 30000;
    const interval = options.interval || 100;
    const visible = options.visible !== false;
    
    return new Promise((resolve, reject) => {
        const startTime = Date.now();
        
        function check() {
            const el = document.querySelector(selector);
            
            if (el) {
                if (!visible || (el.offsetWidth > 0 && el.offsetHeight > 0)) {
                    resolve(el);
                    return;
                }
            }
            
            if (Date.now() - startTime > timeout) {
                reject(new Error(`Timeout waiting for: ${selector}`));
                return;
            }
            
            setTimeout(check, interval);
        }
        
        check();
    });
};
")
}

/// The `__wbp2_waitForNavigation` helper: waits for a URL change.
pub open spec fn wait_for_navigation_helper() -> Seq<char> {
    "
window.__wbp2_waitForNavigation = function(options = {}) {
    const timeout = options.timeout || 30000;
    
    return new Promise((resolve, reject) => {
        const startUrl = window.location.href;
        const startTime = Date.now();
        
        function check() {
            if (window.location.href !== startUrl) {
                // Wait a bit for page to stabilize
                setTimeout(() => {
                    resolve({
                        from: startUrl,
                        to: window.location.href
                    });
                }, 100);
                return;
            }
            
            if (Date.now() - startTime > timeout) {
                reject(new Error('Navigation timeout'));
                return;
            }
            
            setTimeout(check, 100);
        }
        
        check();
    });
};
"@
}

/// The `__wbp2_waitForNavigation` helper: waits for a URL change.
pub fn generate_wait_for_navigation_helper() -> (r: String)
    ensures
        r@ == wait_for_navigation_helper(),
{
    owned("
window.__wbp2_waitForNavigation = function(options = {}) {
    const timeout = options.timeout || 30000;
    
    return new Promise((resolve, reject) => {
        const startUrl = window.location.href;
        const startTime = Date.now();
        
        function check() {
            if (window.location.href !== startUrl) {
                // Wait a bit for page to stabilize
                setTimeout(() => {
                    resolve({
                        from: startUrl,
                        to: window.location.href
                    });
                }, 100);
                return;
            }
            
            if (Date.now() - startTime > timeout) {
                reject(new Error('Navigation timeout'));
                return;
            }
            
            setTimeout(check, 100);
        }
        
        check();
    });
};
")
}

/// The `__wbp2_waitForNetworkIdle` helper: waits until no request is pending.
pub open spec fn wait_for_network_idle_helper() -> Seq<char> {
    "
window.__wbp2_waitForNetworkIdle = function(options = {}) {
    const timeout = options.timeout || 30000;
    const idleTime = options.idleTime || 500;
    
    return new Promise((resolve, reject) => {
        let pending = 0;
        let lastActivity = Date.now();
        const startTime = Date.now();
        
        // Track fetch/XHR
        const originalFetch = window.fetch;
        const originalXHROpen = XMLHttpRequest.prototype.open;
        const originalXHRSend = XMLHttpRequest.prototype.send;
        
        window.fetch = function(...args) {
            pending++;
            lastActivity = Date.now();
            return originalFetch.apply(this, args).finally(() => {
                pending--;
                lastActivity = Date.now();
            });
        };
        
        XMLHttpRequest.prototype.open = function(...args) {
            this.__wbp2_tracked = true;
            return originalXHROpen.apply(this, args);
        };
        
        XMLHttpRequest.prototype.send = function(...args) {
            if (this.__wbp2_tracked) {
                pending++;
                lastActivity = Date.now();
                this.addEventListener('loadend', () => {
                    pending--;
                    lastActivity = Date.now();
                });
            }
            return originalXHRSend.apply(this, args);
        };
        
        function cleanup() {
            window.fetch = originalFetch;
            XMLHttpRequest.prototype.open = originalXHROpen;
            XMLHttpRequest.prototype.send = originalXHRSend;
        }
        
        function check() {
            if (pending === 0 && Date.now() - lastActivity > idleTime) {
                cleanup();
                resolve({ idleTime: Date.now() - startTime });
                return;
            }
            
            if (Date.now() - startTime > timeout) {
                cleanup();
                reject(new Error('Network idle timeout'));
                return;
            }
            
            setTimeout(check, 100);
        }
        
        check();
    });
};
"@
}

/// The `__wbp2_waitForNetworkIdle` helper: waits until no request is pending.
pub fn generate_wait_for_network_idle_helper() -> (r: String)
    ensures
        r@ == wait_for_network_idle_helper(),
{
    owned("
window.__wbp2_waitForNetworkIdle = function(options = {}) {
    const timeout = options.timeout || 30000;
    const idleTime = options.idleTime || 500;
    
    return new Promise((resolve, reject) => {
        let pending = 0;
        let lastActivity = Date.now();
        const startTime = Date.now();
        
        // Track fetch/XHR
        const originalFetch = window.fetch;
        const originalXHROpen = XMLHttpRequest.prototype.open;
        const originalXHRSend = XMLHttpRequest.prototype.send;
        
        window.fetch = function(...args) {
            pending++;
            lastActivity = Date.now();
            return originalFetch.apply(this, args).finally(() => {
                pending--;
                lastActivity = Date.now();
            });
        };
        
        XMLHttpRequest.prototype.open = function(...args) {
            this.__wbp2_tracked = true;
            return originalXHROpen.apply(this, args);
        };
        
        XMLHttpRequest.prototype.send = function(...args) {
            if (this.__wbp2_tracked) {
                pending++;
                lastActivity = Date.now();
                this.addEventListener('loadend', () => {
                    pending--;
                    lastActivity = Date.now();
                });
            }
            return originalXHRSend.apply(this, args);
        };
        
        function cleanup() {
            window.fetch = originalFetch;
            XMLHttpRequest.prototype.open = originalXHROpen;
            XMLHttpRequest.prototype.send = originalXHRSend;
        }
        
        function check() {
            if (pending === 0 && Date.now() - lastActivity > idleTime) {
                cleanup();
                resolve({ idleTime: Date.now() - startTime });
                return;
            }
            
            if (Date.now() - startTime > timeout) {
                cleanup();
                reject(new Error('Network idle timeout'));
                return;
            }
            
            setTimeout(check, 100);
        }
        
        check();
    });
};
")
}

/// The `__wbp2_waitForDomStable` helper: waits until the DOM stops changing.
pub open spec fn wait_for_dom_stable_helper() -> Seq<char> {
    "
window.__wbp2_waitForDomStable = function(options = {}) {
    const timeout = options.timeout || 30000;
    const stableTime = options.stableTime || 500;
    const target = options.target || document.body;
    
    return new Promise((resolve, reject) => {
        const startTime = Date.now();
        let lastMutation = Date.now();
        
        const observer = new MutationObserver(() => {
            lastMutation = Date.now();
        });
        
        observer.observe(target, {
            childList: true,
            subtree: true,
            attributes: true,
            characterData: true
        });
        
        function check() {
            if (Date.now() - lastMutation > stableTime) {
                observer.disconnect();
                resolve({ stableAfter: Date.now() - startTime });
                return;
            }
            
            if (Date.now() - startTime > timeout) {
                observer.disconnect();
                reject(new Error('DOM stability timeout'));
                return;
            }
            
            setTimeout(check, 100);
        }
        
        check();
    });
};
"@
}

/// The `__wbp2_waitForDomStable` helper: waits until the DOM stops changing.
pub fn generate_wait_for_dom_stable_helper() -> (r: String)
    ensures
        r@ == wait_for_dom_stable_helper(),
{
    owned("
window.__wbp2_waitForDomStable = function(options = {}) {
    const timeout = options.timeout || 30000;
    const stableTime = options.stableTime || 500;
    const target = options.target || document.body;
    
    return new Promise((resolve, reject) => {
        const startTime = Date.now();
        let lastMutation = Date.now();
        
        const observer = new MutationObserver(() => {
            lastMutation = Date.now();
        });
        
        observer.observe(target, {
            childList: true,
            subtree: true,
            attributes: true,
            characterData: true
        });
        
        function check() {
            if (Date.now() - lastMutation > stableTime) {
                observer.disconnect();
                resolve({ stableAfter: Date.now() - startTime });
                return;
            }
            
            if (Date.now() - startTime > timeout) {
                observer.disconnect();
                reject(new Error('DOM stability timeout'));
                return;
            }
            
            setTimeout(check, 100);
        }
        
        check();
    });
};
")
}

/// The built-in macros, in order: name, description, script, required
/// parameters, optional parameters with their JSON defaults, timeout.
pub open spec fn macro_table() -> Seq<MacroRow> {
    seq![
        ("extract_list"@, "Extract list of items matching selector with optional transform"@, "
(async function(params) {
    await __wbp2_waitFor(params.container || 'body');
    
    const items = Array.from(document.querySelectorAll(params.selector));
    let results = items.map((el, i) => {
        const item = { _index: i };
        
        if (params.fields) {
            for (const [key, fieldSelector] of Object.entries(params.fields)) {
                const fieldEl = el.querySelector(fieldSelector);
                item[key] = fieldEl ? fieldEl.textContent.trim() : null;
            }
        } else {
            item.text = el.textContent.trim();
            item.html = el.innerHTML;
        }
        
        return item;
    });
    
    // Apply filter if provided
    if (params.filter) {
        const filterFn = new Function('item', `return ${params.filter}`);
        results = results.filter(filterFn);
    }
    
    // Apply limit
    if (params.limit) {
        results = results.slice(0, params.limit);
    }
    
    return JSON.stringify({ items: results, count: results.length });
})
"@, seq!["selector"@], seq![("container"@, "\"body\""@), ("fields"@, "null"@), ("filter"@, "null"@), ("limit"@, "null"@)], 30000u64),
        ("paginated_extract"@, "Extract items across multiple pages"@, "
(async function(params) {
    const allItems = [];
    let page = 1;
    const maxPages = params.max_pages || 10;
    
    while (page <= maxPages) {
        await __wbp2_waitFor(params.selector);
        await __wbp2_waitForDomStable({ stableTime: 300 });
        
        const items = Array.from(document.querySelectorAll(params.selector));
        items.forEach((el, i) => {
            const item = { _page: page, _index: i };
            if (params.fields) {
                for (const [key, fieldSelector] of Object.entries(params.fields)) {
                    const fieldEl = el.querySelector(fieldSelector);
                    item[key] = fieldEl ? fieldEl.textContent.trim() : null;
                }
            } else {
                item.text = el.textContent.trim();
            }
            allItems.push(item);
        });
        
        // Check for next button
        const nextBtn = document.querySelector(params.next_selector);
        if (!nextBtn || nextBtn.disabled) {
            break;
        }
        
        nextBtn.click();
        await __wbp2_waitForDomStable({ stableTime: 500 });
        page++;
    }
    
    return JSON.stringify({ items: allItems, pages: page, count: allItems.length });
})
"@, seq!["selector"@, "next_selector"@], seq![("fields"@, "null"@), ("max_pages"@, "10"@)], 120000u64),
        ("wait_for_spa"@, "Wait for SPA to fully load and stabilize"@, "
(async function(params) {
    const startTime = Date.now();
    
    // Wait for initial DOM
    await __wbp2_waitFor(params.selector || 'body');
    
    // Wait for network to be idle
    try {
        await __wbp2_waitForNetworkIdle({ 
            timeout: params.network_timeout || 10000,
            idleTime: params.idle_time || 500
        });
    } catch (e) {
        // Network timeout is acceptable for some SPAs
    }
    
    // Wait for DOM stability
    await __wbp2_waitForDomStable({
        stableTime: params.stable_time || 500
    });
    
    // Extract if selector provided
    let data = null;
    if (params.extract_selector) {
        const els = document.querySelectorAll(params.extract_selector);
        data = Array.from(els).map(el => el.textContent.trim());
    }
    
    return JSON.stringify({
        ready: true,
        elapsed_ms: Date.now() - startTime,
        data: data
    });
})
"@, seq![], seq![("selector"@, "\"body\""@), ("network_timeout"@, "10000"@), ("idle_time"@, "500"@), ("stable_time"@, "500"@), ("extract_selector"@, "null"@)], 60000u64),
        ("form_fill"@, "Fill form fields and optionally submit"@, "
(async function(params) {
    const form = await __wbp2_waitFor(params.form_selector || 'form');
    const filled = [];
    
    for (const [selector, value] of Object.entries(params.fields)) {
        const input = form.querySelector(selector);
        if (input) {
            input.value = value;
            input.dispatchEvent(new Event('input', { bubbles: true }));
            input.dispatchEvent(new Event('change', { bubbles: true }));
            filled.push(selector);
        }
    }
    
    if (params.submit) {
        const submitBtn = form.querySelector(params.submit_selector || 'button[type=\"submit\"], input[type=\"submit\"]');
        if (submitBtn) {
            submitBtn.click();
            await __wbp2_waitForDomStable({ stableTime: 500 });
        } else {
            form.submit();
        }
    }
    
    return JSON.stringify({
        filled: filled,
        submitted: !!params.submit
    });
})
"@, seq!["fields"@], seq![("form_selector"@, "\"form\""@), ("submit"@, "false"@), ("submit_selector"@, "null"@)], 30000u64)
    ]
}

/// The built-in macros.
pub fn get_preset_macros() -> (v: Vec<MacroDefinition>)
    ensures
        v@.len() == macro_table().len(),
        forall|i: int| 0 <= i < v@.len() ==> macro_row(#[trigger] v@[i]) == macro_table()[i] && v@[i].builtin,
{
    let mut v: Vec<MacroDefinition> = Vec::new();
    let required: Vec<String> = vec![owned("selector")];
    let optional: Vec<(String, String)> = vec![(owned("container"), owned("\"body\"")), (owned("fields"), owned("null")), (owned("filter"), owned("null")), (owned("limit"), owned("null"))];
    v.push(preset_macro("extract_list", "Extract list of items matching selector with optional transform", "
(async function(params) {
    await __wbp2_waitFor(params.container || 'body');
    
    const items = Array.from(document.querySelectorAll(params.selector));
    let results = items.map((el, i) => {
        const item = { _index: i };
        
        if (params.fields) {
            for (const [key, fieldSelector] of Object.entries(params.fields)) {
                const fieldEl = el.querySelector(fieldSelector);
                item[key] = fieldEl ? fieldEl.textContent.trim() : null;
            }
        } else {
            item.text = el.textContent.trim();
            item.html = el.innerHTML;
        }
        
        return item;
    });
    
    // Apply filter if provided
    if (params.filter) {
        const filterFn = new Function('item', `return ${params.filter}`);
        results = results.filter(filterFn);
    }
    
    // Apply limit
    if (params.limit) {
        results = results.slice(0, params.limit);
    }
    
    return JSON.stringify({ items: results, count: results.length });
})
", required, optional, 30000));
    let required: Vec<String> = vec![owned("selector"), owned("next_selector")];
    let optional: Vec<(String, String)> = vec![(owned("fields"), owned("null")), (owned("max_pages"), owned("10"))];
    v.push(preset_macro("paginated_extract", "Extract items across multiple pages", "
(async function(params) {
    const allItems = [];
    let page = 1;
    const maxPages = params.max_pages || 10;
    
    while (page <= maxPages) {
        await __wbp2_waitFor(params.selector);
        await __wbp2_waitForDomStable({ stableTime: 300 });
        
        const items = Array.from(document.querySelectorAll(params.selector));
        items.forEach((el, i) => {
            const item = { _page: page, _index: i };
            if (params.fields) {
                for (const [key, fieldSelector] of Object.entries(params.fields)) {
                    const fieldEl = el.querySelector(fieldSelector);
                    item[key] = fieldEl ? fieldEl.textContent.trim() : null;
                }
            } else {
                item.text = el.textContent.trim();
            }
            allItems.push(item);
        });
        
        // Check for next button
        const nextBtn = document.querySelector(params.next_selector);
        if (!nextBtn || nextBtn.disabled) {
            break;
        }
        
        nextBtn.click();
        await __wbp2_waitForDomStable({ stableTime: 500 });
        page++;
    }
    
    return JSON.stringify({ items: allItems, pages: page, count: allItems.length });
})
", required, optional, 120000));
    let required: Vec<String> = vec![];
    let optional: Vec<(String, String)> = vec![(owned("selector"), owned("\"body\"")), (owned("network_timeout"), owned("10000")), (owned("idle_time"), owned("500")), (owned("stable_time"), owned("500")), (owned("extract_selector"), owned("null"))];
    v.push(preset_macro("wait_for_spa", "Wait for SPA to fully load and stabilize", "
(async function(params) {
    const startTime = Date.now();
    
    // Wait for initial DOM
    await __wbp2_waitFor(params.selector || 'body');
    
    // Wait for network to be idle
    try {
        await __wbp2_waitForNetworkIdle({ 
            timeout: params.network_timeout || 10000,
            idleTime: params.idle_time || 500
        });
    } catch (e) {
        // Network timeout is acceptable for some SPAs
    }
    
    // Wait for DOM stability
    await __wbp2_waitForDomStable({
        stableTime: params.stable_time || 500
    });
    
    // Extract if selector provided
    let data = null;
    if (params.extract_selector) {
        const els = document.querySelectorAll(params.extract_selector);
        data = Array.from(els).map(el => el.textContent.trim());
    }
    
    return JSON.stringify({
        ready: true,
        elapsed_ms: Date.now() - startTime,
        data: data
    });
})
", required, optional, 60000));
    let required: Vec<String> = vec![owned("fields")];
    let optional: Vec<(String, String)> = vec![(owned("form_selector"), owned("\"form\"")), (owned("submit"), owned("false")), (owned("submit_selector"), owned("null"))];
    v.push(preset_macro("form_fill", "Fill form fields and optionally submit", "
(async function(params) {
    const form = await __wbp2_waitFor(params.form_selector || 'form');
    const filled = [];
    
    for (const [selector, value] of Object.entries(params.fields)) {
        const input = form.querySelector(selector);
        if (input) {
            input.value = value;
            input.dispatchEvent(new Event('input', { bubbles: true }));
            input.dispatchEvent(new Event('change', { bubbles: true }));
            filled.push(selector);
        }
    }
    
    if (params.submit) {
        const submitBtn = form.querySelector(params.submit_selector || 'button[type=\"submit\"], input[type=\"submit\"]');
        if (submitBtn) {
            submitBtn.click();
            await __wbp2_waitForDomStable({ stableTime: 500 });
        } else {
            form.submit();
        }
    }
    
    return JSON.stringify({
        filled: filled,
        submitted: !!params.submit
    });
})
", required, optional, 30000));
    proof {
        assert forall|i: int| 0 <= i < v@.len() implies macro_row(#[trigger] v@[i]) == macro_table()[i] && v@[i].builtin by {
            assert(macro_table().len() == 4);
        }
    }
    v
}

/// All four helpers, in order.
pub open spec fn all_helpers() -> Seq<char> {
    wait_for_helper() + wait_for_navigation_helper() + wait_for_network_idle_helper() + wait_for_dom_stable_helper()
}

/// The four helper functions every macro may call, concatenated.
pub fn generate_all_helpers() -> (r: String)
    ensures
        r@ == all_helpers(),
{
    let mut r = generate_wait_for_helper();
    let b = generate_wait_for_navigation_helper();
    push_str(&mut r, b.as_str());
    let c = generate_wait_for_network_idle_helper();
    push_str(&mut r, c.as_str());
    let d = generate_wait_for_dom_stable_helper();
    push_str(&mut r, d.as_str());
    r
}

/// The row `row` is named `name`, ignoring ASCII case.
pub open spec fn macro_named(row: MacroRow, name: Seq<char>) -> bool {
    eq_ignore_ascii_case_seq(row.0, name)
}

/// The first built-in macro named `name` (ignoring ASCII case), if any.
pub open spec fn preset_for(name: Seq<char>) -> Option<int> {
    if exists|i: int| 0 <= i < macro_table().len() && macro_named(#[trigger] macro_table()[i], name) {
        Some(choose|i: int| 0 <= i < macro_table().len() && macro_named(#[trigger] macro_table()[i], name)
            && forall|j: int| 0 <= j < i ==> !macro_named(#[trigger] macro_table()[j], name))
    } else {
        None
    }
}

/// The first built-in macro whose name equals `name` ignoring ASCII case.
pub fn find_preset_macro(name: &str) -> (r: Option<MacroDefinition>)
    ensures
        match r {
            Some(m) => m.builtin && exists|i: int| 0 <= i < macro_table().len() && macro_row(m) == macro_table()[i]
                && macro_named(macro_table()[i], name@)
                && forall|j: int| 0 <= j < i ==> !macro_named(#[trigger] macro_table()[j], name@),
            None => forall|i: int| 0 <= i < macro_table().len() ==> !macro_named(#[trigger] macro_table()[i], name@),
        },
{
    let mut presets = get_preset_macros();
    let mut i: usize = 0;
    while i < presets.len()
        invariant
            presets@.len() == macro_table().len(),
            forall|k: int| 0 <= k < presets@.len() ==> macro_row(#[trigger] presets@[k]) == macro_table()[k] && presets@[k].builtin,
            i <= presets@.len(),
            forall|j: int| 0 <= j < i ==> !macro_named(#[trigger] macro_table()[j], name@),
        decreases presets@.len() - i,
    {
        if str_eq_ignore_ascii_case(presets[i].name.as_str(), name) {
            let ghost at = i as int;
            assert(macro_row(presets@[at]) == macro_table()[at]);
            let m = presets.remove(i);
            return Some(m);
        }
        assert(macro_row(presets@[i as int]) == macro_table()[i as int]);
        i = i + 1;
    }
    None
}

/// No two macros share a name.
pub open spec fn unique_macro_names(s: Seq<MacroDefinition>) -> bool {
    forall|i: int, j: int| 0 <= i < s.len() && 0 <= j < s.len() && i != j ==> (#[trigger] s[i]).name@ != (#[trigger] s[j]).name@
}

/// Some macro in `s` is named `name`.
pub open spec fn has_macro(s: Seq<MacroDefinition>, name: Seq<char>) -> bool {
    exists|i: int| 0 <= i < s.len() && (#[trigger] s[i]).name@ == name
}

/// The macro named `name` in `s` (meaningful when `has_macro`).
pub open spec fn macro_at(s: Seq<MacroDefinition>, name: Seq<char>) -> MacroDefinition {
    s[choose|i: int| 0 <= i < s.len() && (#[trigger] s[i]).name@ == name]
}

/// Every builtin macro of `before` is still registered, unchanged, in
/// `after`.
pub open spec fn builtins_kept(before: Seq<MacroDefinition>, after: Seq<MacroDefinition>) -> bool {
    forall|n: Seq<char>| has_macro(before, n) && macro_at(before, n).builtin
        ==> has_macro(after, n) && macro_at(after, n) == macro_at(before, n)
}

/// Builtin macros outlive any run of registrations and deletions: keeping
/// them is preserved from one step to the next.
pub proof fn law_builtins_kept_across_steps(a: Seq<MacroDefinition>, b: Seq<MacroDefinition>, c: Seq<MacroDefinition>)
    requires
        builtins_kept(a, b),
        builtins_kept(b, c),
    ensures
        builtins_kept(a, c),
{
}

/// `Cannot overwrite builtin macro: <name>`.
pub open spec fn overwrite_builtin_message(name: Seq<char>) -> Seq<char> {
    "Cannot overwrite builtin macro: "@ + name
}

/// `Cannot delete builtin macro: <name>`.
pub open spec fn delete_builtin_message(name: Seq<char>) -> Seq<char> {
    "Cannot delete builtin macro: "@ + name
}

/// The macros that `list` reports: the registered ones, then each built-in
/// macro whose exact name no registered macro has.
pub open spec fn listed_macros(custom: Seq<MacroDefinition>) -> Seq<MacroRow> {
    macro_rows(custom)
        + macro_table().filter(|row: MacroRow| !has_macro(custom, row.0))
}

/// The registry of custom macros.
#[derive(Debug, Clone)]
pub struct MacroRegistry {
    macros: Vec<MacroDefinition>,
}

impl MacroRegistry {
    /// The registered macros.
    pub closed spec fn entries(&self) -> Seq<MacroDefinition> {
        self.macros@
    }

    /// Well-formedness: registered names are distinct.
    pub open spec fn wf(&self) -> bool {
        unique_macro_names(self.entries())
    }

    /// An empty registry.
    pub fn new() -> (r: Self)
        ensures
            r.wf(),
            r.entries().len() == 0,
    {
        MacroRegistry { macros: Vec::new() }
    }

    /// The position of the macro named `name`.
    fn find(&self, name: &str) -> (r: Option<usize>)
        requires
            self.wf(),
        ensures
            match r {
                Some(i) => i < self.entries().len() && self.entries()[i as int].name@ == name@
                    && macro_at(self.entries(), name@) == self.entries()[i as int],
                None => !has_macro(self.entries(), name@),
            },
    {
        let mut i: usize = 0;
        while i < self.macros.len()
            invariant
                i <= self.macros@.len(),
                unique_macro_names(self.macros@),
                forall|k: int| 0 <= k < i ==> (#[trigger] self.macros@[k]).name@ != name@,
            decreases self.macros@.len() - i,
        {
            if str_eq(self.macros[i].name.as_str(), name) {
                let ghost k = choose|k: int| 0 <= k < self.macros@.len() && (#[trigger] self.macros@[k]).name@ == name@;
                assert(self.macros@[i as int].name@ == name@);
                assert(k == i);
                return Some(i);
            }
            i = i + 1;
        }
        None
    }

    /// Registers a custom macro under its name, replacing a custom macro of
    /// that name unless that one is built-in.  The name must not be empty.
    pub fn register(&mut self, macro_def: MacroDefinition) -> (r: Result<(), String>)
        requires
            old(self).wf(),
        ensures
            final(self).wf(),
            macro_def.name@.len() == 0 ==> (r matches Err(e) && e@ == "Macro name cannot be empty"@),
            macro_def.name@.len() > 0 && has_macro(old(self).entries(), macro_def.name@)
                && macro_at(old(self).entries(), macro_def.name@).builtin
                ==> (r matches Err(e) && e@ == overwrite_builtin_message(macro_def.name@)),
            r is Err ==> final(self).entries() == old(self).entries(),
            r is Ok <==> macro_def.name@.len() > 0 && !(has_macro(old(self).entries(), macro_def.name@)
                && macro_at(old(self).entries(), macro_def.name@).builtin),
            r is Ok ==> has_macro(final(self).entries(), macro_def.name@)
                && macro_at(final(self).entries(), macro_def.name@) == macro_def,
            forall|n: Seq<char>| n != macro_def.name@ ==> (has_macro(final(self).entries(), n) == has_macro(old(self).entries(), n))
                && (has_macro(old(self).entries(), n) ==> macro_at(final(self).entries(), n) == macro_at(old(self).entries(), n)),
            builtins_kept(old(self).entries(), final(self).entries()),
    {
        if macro_def.name.as_str().is_empty() {
            return Err(owned("Macro name cannot be empty"));
        }
        let ghost name = macro_def.name@;
        match self.find(macro_def.name.as_str()) {
            Some(i) => {
                if self.macros[i].builtin {
                    let mut e = owned("Cannot overwrite builtin macro: ");
                    push_str(&mut e, macro_def.name.as_str());
                    return Err(e);
                }
                let ghost o = self.macros@;
                self.macros.set(i, macro_def);
                proof {
                    assert forall|a: int, b: int| 0 <= a < self.macros@.len() && 0 <= b < self.macros@.len() && a != b
                        implies (#[trigger] self.macros@[a]).name@ != (#[trigger] self.macros@[b]).name@ by {
                        assert(self.macros@[a].name@ == o[a].name@);
                        assert(self.macros@[b].name@ == o[b].name@);
                    }
                    assert(self.macros@[i as int].name@ == name);
                    self.lemma_at(name, i as int);
                    assert forall|n: Seq<char>| n != name implies (has_macro(self.macros@, n) == has_macro(o, n))
                        && (has_macro(o, n) ==> macro_at(self.macros@, n) == macro_at(o, n)) by {
                        if has_macro(o, n) {
                            let k = choose|k: int| 0 <= k < o.len() && (#[trigger] o[k]).name@ == n;
                            assert(self.macros@[k] == o[k]);
                            self.lemma_at(n, k);
                            assert(macro_at(o, n) == o[k]);
                        }
                        if has_macro(self.macros@, n) {
                            let k = choose|k: int| 0 <= k < self.macros@.len() && (#[trigger] self.macros@[k]).name@ == n;
                            assert(self.macros@[k] == o[k]);
                        }
                    }
                }
            },
            None => {
                let ghost o = self.macros@;
                self.macros.push(macro_def);
                proof {
                    let last = o.len() as int;
                    assert forall|a: int, b: int| 0 <= a < self.macros@.len() && 0 <= b < self.macros@.len() && a != b
                        implies (#[trigger] self.macros@[a]).name@ != (#[trigger] self.macros@[b]).name@ by {
                        if a < last && b < last {
                            assert(self.macros@[a] == o[a] && self.macros@[b] == o[b]);
                        } else if a == last {
                            assert(self.macros@[b] == o[b]);
                        } else {
                            assert(self.macros@[a] == o[a]);
                        }
                    }
                    self.lemma_at(name, last);
                    assert forall|n: Seq<char>| n != name implies (has_macro(self.macros@, n) == has_macro(o, n))
                        && (has_macro(o, n) ==> macro_at(self.macros@, n) == macro_at(o, n)) by {
                        if has_macro(o, n) {
                            let k = choose|k: int| 0 <= k < o.len() && (#[trigger] o[k]).name@ == n;
                            assert(self.macros@[k] == o[k]);
                            self.lemma_at(n, k);
                            assert(macro_at(o, n) == o[k]);
                        }
                        if has_macro(self.macros@, n) {
                            let k = choose|k: int| 0 <= k < self.macros@.len() && (#[trigger] self.macros@[k]).name@ == n;
                            assert(k != last);
                            assert(self.macros@[k] == o[k]);
                        }
                    }
                }
            },
        }
        Ok(())
    }

    /// Within distinct names, `macro_at` finds the macro at `i`.
    proof fn lemma_at(&self, name: Seq<char>, i: int)
        requires
            unique_macro_names(self.macros@),
            0 <= i < self.macros@.len(),
            self.macros@[i].name@ == name,
        ensures
            has_macro(self.macros@, name),
            macro_at(self.macros@, name) == self.macros@[i],
    {
        assert(self.macros@[i].name@ == name);
    }

    /// The macro named `name`: the registered one with exactly that name,
    /// else the built-in one with that name ignoring ASCII case.
    pub fn get(&self, name: &str) -> (r: Option<MacroDefinition>)
        requires
            self.wf(),
        ensures
            has_macro(self.entries(), name@) ==> (r matches Some(m) && same_macro(m, macro_at(self.entries(), name@))),
            !has_macro(self.entries(), name@) ==> match r {
                Some(m) => m.builtin && exists|i: int| 0 <= i < macro_table().len() && macro_row(m) == macro_table()[i]
                    && macro_named(macro_table()[i], name@)
                    && forall|j: int| 0 <= j < i ==> !macro_named(#[trigger] macro_table()[j], name@),
                None => forall|i: int| 0 <= i < macro_table().len() ==> !macro_named(#[trigger] macro_table()[i], name@),
            },
    {
        match self.find(name) {
            Some(i) => Some(self.macros[i].duplicate()),
            None => find_preset_macro(name),
        }
    }

    /// Deletes the registered macro named `name`; a built-in one is kept and
    /// reported.  Deleting an absent name succeeds.
    pub fn delete(&mut self, name: &str) -> (r: Result<(), String>)
        requires
            old(self).wf(),
        ensures
            final(self).wf(),
            has_macro(old(self).entries(), name@) && macro_at(old(self).entries(), name@).builtin
                ==> (r matches Err(e) && e@ == delete_builtin_message(name@) && final(self).entries() == old(self).entries()),
            !(has_macro(old(self).entries(), name@) && macro_at(old(self).entries(), name@).builtin)
                ==> (r is Ok && !has_macro(final(self).entries(), name@)),
            forall|n: Seq<char>| n != name@ ==> (has_macro(final(self).entries(), n) == has_macro(old(self).entries(), n))
                && (has_macro(old(self).entries(), n) ==> macro_at(final(self).entries(), n) == macro_at(old(self).entries(), n)),
            builtins_kept(old(self).entries(), final(self).entries()),
    {
        match self.find(name) {
            Some(i) => {
                if self.macros[i].builtin {
                    let mut e = owned("Cannot delete builtin macro: ");
                    push_str(&mut e, name);
                    return Err(e);
                }
                let ghost o = self.macros@;
                self.macros.remove(i);
                proof {
                    let r = self.macros@;
                    assert(r == o.remove(i as int));
                    assert forall|j: int| 0 <= j < r.len() implies #[trigger] r[j] == (if j < i { o[j] } else { o[j + 1] }) by {}
                    assert forall|a: int, b: int| 0 <= a < r.len() && 0 <= b < r.len() && a != b
                        implies (#[trigger] r[a]).name@ != (#[trigger] r[b]).name@ by {
                        let a2 = if a < i { a } else { a + 1 };
                        let b2 = if b < i { b } else { b + 1 };
                        assert(r[a] == o[a2] && r[b] == o[b2]);
                    }
                    if has_macro(r, name@) {
                        let k = choose|k: int| 0 <= k < r.len() && (#[trigger] r[k]).name@ == name@;
                        let k2 = if k < i { k } else { k + 1 };
                        assert(r[k] == o[k2]);
                    }
                    assert forall|n: Seq<char>| n != name@ implies (has_macro(r, n) == has_macro(o, n))
                        && (has_macro(o, n) ==> macro_at(r, n) == macro_at(o, n)) by {
                        if has_macro(o, n) {
                            let k = choose|k: int| 0 <= k < o.len() && (#[trigger] o[k]).name@ == n;
                            let k2 = if k < i { k } else { k - 1 };
                            assert(r[k2] == o[k]);
                            self.lemma_at(n, k2);
                            assert(macro_at(o, n) == o[k]);
                        }
                        if has_macro(r, n) {
                            let k = choose|k: int| 0 <= k < r.len() && (#[trigger] r[k]).name@ == n;
                            let k2 = if k < i { k } else { k + 1 };
                            assert(r[k] == o[k2]);
                        }
                    }
                }
                Ok(())
            },
            None => Ok(()),
        }
    }

    /// Every available macro, sorted by name: the registered ones and the
    /// built-in ones no registered macro shadows by exact name.
    pub fn list(&self) -> (r: Vec<MacroDefinition>)
        requires
            self.wf(),
        ensures
            sorted_by_name(r@),
            macro_rows(r@).to_multiset() == listed_macros(self.entries()).to_multiset(),
    {
        broadcast use vstd::seq_lib::group_to_multiset_ensures;

        let ghost pf = |row: MacroRow| !has_macro(self.macros@, row.0);
        let mut all: Vec<MacroDefinition> = Vec::new();
        let mut i: usize = 0;
        while i < self.macros.len()
            invariant
                i <= self.macros@.len(),
                macro_rows(all@) == macro_rows(self.macros@.take(i as int)),
            decreases self.macros@.len() - i,
        {
            let ghost prev = all@;
            let d = self.macros[i].duplicate();
            all.push(d);
            proof {
                lemma_rows_push(prev, d);
                lemma_rows_push(self.macros@.take(i as int), self.macros@[i as int]);
                assert(self.macros@.take(i + 1) =~= self.macros@.take(i as int).push(self.macros@[i as int]));
            }
            i = i + 1;
        }
        assert(self.macros@.take(i as int) =~= self.macros@);
        let ghost customs = macro_rows(self.macros@);
        let presets = get_preset_macros();
        let mut k: usize = 0;
        while k < presets.len()
            invariant
                unique_macro_names(self.macros@),
                presets@.len() == macro_table().len(),
                forall|q: int| 0 <= q < presets@.len() ==> macro_row(#[trigger] presets@[q]) == macro_table()[q] && presets@[q].builtin,
                k <= presets@.len(),
                pf == |row: MacroRow| !has_macro(self.macros@, row.0),
                customs == macro_rows(self.macros@),
                macro_rows(all@) == customs + macro_table().take(k as int).filter(pf),
            decreases presets@.len() - k,
        {
            let ghost prev = all@;
            let ghost t = macro_table().take(k + 1);
            assert(macro_row(presets@[k as int]) == macro_table()[k as int]);
            assert(t.drop_last() =~= macro_table().take(k as int));
            assert(t.last() == macro_table()[k as int]);
            if self.find(presets[k].name.as_str()).is_none() {
                let d = presets[k].duplicate();
                all.push(d);
                proof {
                    lemma_rows_push(prev, d);
                    assert(pf(t.last()));
                    reveal(Seq::filter);
                    assert(t.filter(pf) == t.drop_last().filter(pf).push(t.last()));
                    assert(macro_rows(all@) =~= customs + t.filter(pf));
                }
            } else {
                proof {
                    assert(!pf(t.last()));
                    reveal(Seq::filter);
                    assert(t.filter(pf) == t.drop_last().filter(pf));
                }
            }
            k = k + 1;
        }
        assert(macro_table().take(k as int) =~= macro_table());
        assert(listed_macros(self.macros@) =~= customs + macro_table().filter(pf));
        let r = sort_by_name::<MacroDefinition, MacroRow>(all, Ghost(|m: MacroDefinition| macro_row(m)));
        assert(macro_rows(r@) =~= r@.map_values(|m: MacroDefinition| macro_row(m)));
        r
    }
}


/// The script that runs `def` with the parameter object `params`: the
/// helpers, then `(<script>)(<params>);`.
pub open spec fn macro_script(def: MacroDefinition, params: Seq<(Seq<char>, Seq<char>)>) -> Seq<char> {
    all_helpers() + "\n("@ + def.script@ + ")("@ + crate::json::json_object(params) + ");"@
}

/// The executable script for a macro called with `params` (values given as
/// JSON text).
pub fn generate_macro_script(macro_def: &MacroDefinition, params: &Vec<(String, String)>) -> (r: String)
    ensures
        r@ == macro_script(*macro_def, pair_views(params@)),
{
    let params_json = crate::json::params_json_object(params);
    let mut r = generate_all_helpers();
    push_str(&mut r, "\n(");
    push_str(&mut r, macro_def.script.as_str());
    push_str(&mut r, ")(");
    push_str(&mut r, params_json.as_str());
    push_str(&mut r, ");");
    assert(pair_views(params@) =~= params@.map_values(|p: (String, String)| (p.0@, p.1@)));
    r
}

} // verus!
