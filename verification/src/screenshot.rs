//! Screenshots: capture modes and formats, device presets for emulation,
//! and the JavaScript that measures, prepares and captures pages.

use vstd::prelude::*;
use vstd::string::*;
use crate::json::{json_or_empty, selectors_json};
use crate::text::{
    decimal, digit_char, digit_to_char, eq_ignore_ascii_case_seq, escape_quotes, escape_quotes_str,
    owned, push_char, starts_with_seq, push_decimal, push_signed_decimal, push_str, signed_decimal,
    str_eq, str_eq_ignore_ascii_case, views,
};

verus! {

/// What part of the page a screenshot captures.
#[derive(Debug, Clone, Copy, PartialEq, Eq, Structural)]
pub enum CaptureMode {
    /// The visible viewport.
    Viewport,
    /// The whole page, scrolling.
    FullPage,
    /// One element.
    Element,
}

impl Default for CaptureMode {
    fn default() -> (r: Self)
        ensures
            r == CaptureMode::Viewport,
    {
        CaptureMode::Viewport
    }
}

/// Image encoding of a screenshot.
#[derive(Debug, Clone, Copy, PartialEq, Eq, Structural)]
pub enum ImageFormat {
    Png,
    Jpeg,
    Webp,
}

impl Default for ImageFormat {
    fn default() -> (r: Self)
        ensures
            r == ImageFormat::Png,
    {
        ImageFormat::Png
    }
}

impl ImageFormat {
    /// The MIME type of the format.
    pub fn mime_type(&self) -> (r: &'static str)
        ensures
            r@ == (match *self {
                ImageFormat::Png => "image/png"@,
                ImageFormat::Jpeg => "image/jpeg"@,
                ImageFormat::Webp => "image/webp"@,
            }),
    {
        match self {
            ImageFormat::Png => "image/png",
            ImageFormat::Jpeg => "image/jpeg",
            ImageFormat::Webp => "image/webp",
        }
    }

    /// The file extension of the format.
    pub fn extension(&self) -> (r: &'static str)
        ensures
            r@ == (match *self {
                ImageFormat::Png => "png"@,
                ImageFormat::Jpeg => "jpg"@,
                ImageFormat::Webp => "webp"@,
            }),
    {
        match self {
            ImageFormat::Png => "png",
            ImageFormat::Jpeg => "jpg",
            ImageFormat::Webp => "webp",
        }
    }
}

/// A viewport to emulate; the device scale factor is kept in thousandths
/// (2.625 is 2625).
#[derive(Debug, Clone)]
pub struct Viewport {
    pub width: u32,
    pub height: u32,
    pub scale_factor_thousandths: u32,
    pub is_mobile: bool,
    pub has_touch: bool,
}

/// A screenshot request.
#[derive(Debug, Clone)]
pub struct ScreenshotRequest {
    pub session: String,
    pub mode: CaptureMode,
    /// Element selector (element mode).
    pub selector: Option<String>,
    pub format: ImageFormat,
    /// Quality 1-100 (JPEG and WebP).
    pub quality: u8,
    pub wait_for_images: bool,
    /// Device preset to emulate.
    pub device: Option<String>,
    pub viewport: Option<Viewport>,
    /// Padding around the element (element mode).
    pub padding: Option<u32>,
    /// Elements to hide while capturing.
    pub hide_selectors: Option<Vec<String>>,
    pub timeout_ms: u64,
}

/// A screenshot: base64 data, its MIME type and size, and the time taken.
#[derive(Debug, Clone)]
pub struct ScreenshotResponse {
    pub success: bool,
    pub data: String,
    pub mime_type: String,
    pub width: u32,
    pub height: u32,
    pub elapsed_ms: u64,
}

/// A device to emulate: its name, viewport and user agent.
#[derive(Debug, Clone)]
pub struct DevicePreset {
    pub name: String,
    pub viewport: Viewport,
    pub user_agent: String,
}

/// Default screenshot quality.
pub fn default_quality() -> (r: u8)
    ensures
        r == 90,
{
    90
}

/// Waiting for images is on unless told otherwise.
pub fn default_true() -> (r: bool)
    ensures
        r,
{
    true
}

/// Default screenshot timeout in milliseconds.
pub fn default_timeout() -> (r: u64)
    ensures
        r == 30000,
{
    30000
}

/// Default device scale factor, in thousandths (1.0).
pub fn default_scale() -> (r: u32)
    ensures
        r == 1000,
{
    1000
}

/// A preset as a row: name, width, height, scale factor in thousandths,
/// mobile, touch, user agent.
pub type PresetRow = (Seq<char>, u32, u32, u32, bool, bool, Seq<char>);

/// The row of a preset.
pub open spec fn row_of(p: DevicePreset) -> PresetRow {
    (p.name@, p.viewport.width, p.viewport.height, p.viewport.scale_factor_thousandths,
        p.viewport.is_mobile, p.viewport.has_touch, p.user_agent@)
}

/// One preset.
fn preset(name: &str, width: u32, height: u32, scale: u32, is_mobile: bool, has_touch: bool, user_agent: &str) -> (p: DevicePreset)
    ensures
        row_of(p) == (name@, width, height, scale, is_mobile, has_touch, user_agent@),
{
    DevicePreset {
        name: owned(name),
        viewport: Viewport { width, height, scale_factor_thousandths: scale, is_mobile, has_touch },
        user_agent: owned(user_agent),
    }
}

/// A preset user agent.
pub const UA_IPHONE_IOS17: &'static str = "Mozilla/5.0 (iPhone; CPU iPhone OS 17_0 like Mac OS X) AppleWebKit/605.1.15 (KHTML, like Gecko) Version/17.0 Mobile/15E148 Safari/604.1";
/// A preset user agent.
pub const UA_IPHONE_IOS18: &'static str = "Mozilla/5.0 (iPhone; CPU iPhone OS 18_0 like Mac OS X) AppleWebKit/605.1.15 (KHTML, like Gecko) Version/18.0 Mobile/15E148 Safari/604.1";
/// A preset user agent.
pub const UA_PIXEL_7: &'static str = "Mozilla/5.0 (Linux; Android 14; Pixel 7) AppleWebKit/537.36 (KHTML, like Gecko) Chrome/120.0.0.0 Mobile Safari/537.36";
/// A preset user agent.
pub const UA_PIXEL_7_PRO: &'static str = "Mozilla/5.0 (Linux; Android 14; Pixel 7 Pro) AppleWebKit/537.36 (KHTML, like Gecko) Chrome/120.0.0.0 Mobile Safari/537.36";
/// A preset user agent.
pub const UA_PIXEL_8: &'static str = "Mozilla/5.0 (Linux; Android 14; Pixel 8) AppleWebKit/537.36 (KHTML, like Gecko) Chrome/120.0.0.0 Mobile Safari/537.36";
/// A preset user agent.
pub const UA_PIXEL_8_PRO: &'static str = "Mozilla/5.0 (Linux; Android 14; Pixel 8 Pro) AppleWebKit/537.36 (KHTML, like Gecko) Chrome/120.0.0.0 Mobile Safari/537.36";
/// A preset user agent.
pub const UA_PIXEL_9: &'static str = "Mozilla/5.0 (Linux; Android 15; Pixel 9) AppleWebKit/537.36 (KHTML, like Gecko) Chrome/128.0.0.0 Mobile Safari/537.36";
/// A preset user agent.
pub const UA_PIXEL_9_PRO: &'static str = "Mozilla/5.0 (Linux; Android 15; Pixel 9 Pro) AppleWebKit/537.36 (KHTML, like Gecko) Chrome/128.0.0.0 Mobile Safari/537.36";
/// A preset user agent.
pub const UA_PIXEL_9_PRO_XL: &'static str = "Mozilla/5.0 (Linux; Android 15; Pixel 9 Pro XL) AppleWebKit/537.36 (KHTML, like Gecko) Chrome/128.0.0.0 Mobile Safari/537.36";
/// A preset user agent.
pub const UA_GALAXY_S23: &'static str = "Mozilla/5.0 (Linux; Android 14; SM-S911B) AppleWebKit/537.36 (KHTML, like Gecko) Chrome/120.0.0.0 Mobile Safari/537.36";
/// A preset user agent.
pub const UA_GALAXY_S23_ULTRA: &'static str = "Mozilla/5.0 (Linux; Android 14; SM-S918B) AppleWebKit/537.36 (KHTML, like Gecko) Chrome/120.0.0.0 Mobile Safari/537.36";
/// A preset user agent.
pub const UA_GALAXY_S24: &'static str = "Mozilla/5.0 (Linux; Android 14; SM-S921B) AppleWebKit/537.36 (KHTML, like Gecko) Chrome/120.0.0.0 Mobile Safari/537.36";
/// A preset user agent.
pub const UA_GALAXY_S24_ULTRA: &'static str = "Mozilla/5.0 (Linux; Android 14; SM-S928B) AppleWebKit/537.36 (KHTML, like Gecko) Chrome/120.0.0.0 Mobile Safari/537.36";
/// A preset user agent.
pub const UA_GALAXY_FOLD_5: &'static str = "Mozilla/5.0 (Linux; Android 14; SM-F946B) AppleWebKit/537.36 (KHTML, like Gecko) Chrome/120.0.0.0 Mobile Safari/537.36";
/// A preset user agent.
pub const UA_IPAD: &'static str = "Mozilla/5.0 (iPad; CPU OS 17_0 like Mac OS X) AppleWebKit/605.1.15 (KHTML, like Gecko) Version/17.0 Mobile/15E148 Safari/604.1";
/// A preset user agent.
pub const UA_GALAXY_TAB_S9: &'static str = "Mozilla/5.0 (Linux; Android 14; SM-X710) AppleWebKit/537.36 (KHTML, like Gecko) Chrome/120.0.0.0 Safari/537.36";
/// A preset user agent.
pub const UA_PIXEL_TABLET: &'static str = "Mozilla/5.0 (Linux; Android 14; Pixel Tablet) AppleWebKit/537.36 (KHTML, like Gecko) Chrome/120.0.0.0 Safari/537.36";
/// A preset user agent.
pub const UA_WINDOWS_CHROME: &'static str = "Mozilla/5.0 (Windows NT 10.0; Win64; x64) AppleWebKit/537.36 (KHTML, like Gecko) Chrome/120.0.0.0 Safari/537.36";
/// A preset user agent.
pub const UA_MAC_SAFARI: &'static str = "Mozilla/5.0 (Macintosh; Intel Mac OS X 14_0) AppleWebKit/605.1.15 (KHTML, like Gecko) Version/17.0 Safari/605.1.15";

/// The built-in device presets, in order: name, width, height, scale
/// factor in thousandths, mobile, touch, user agent.
pub open spec fn device_table() -> Seq<PresetRow> {
    seq![
        ("iphone_se"@, 375u32, 667u32, 2000u32, true, true, UA_IPHONE_IOS17@),
        ("iphone_14"@, 390u32, 844u32, 3000u32, true, true, UA_IPHONE_IOS17@),
        ("iphone_14_plus"@, 428u32, 926u32, 3000u32, true, true, UA_IPHONE_IOS17@),
        ("iphone_14_pro"@, 393u32, 852u32, 3000u32, true, true, UA_IPHONE_IOS17@),
        ("iphone_14_pro_max"@, 430u32, 932u32, 3000u32, true, true, UA_IPHONE_IOS17@),
        ("iphone_15"@, 393u32, 852u32, 3000u32, true, true, UA_IPHONE_IOS18@),
        ("iphone_15_plus"@, 430u32, 932u32, 3000u32, true, true, UA_IPHONE_IOS18@),
        ("iphone_15_pro"@, 393u32, 852u32, 3000u32, true, true, UA_IPHONE_IOS18@),
        ("iphone_15_pro_max"@, 430u32, 932u32, 3000u32, true, true, UA_IPHONE_IOS18@),
        ("iphone_16"@, 393u32, 852u32, 3000u32, true, true, UA_IPHONE_IOS18@),
        ("iphone_16_plus"@, 430u32, 932u32, 3000u32, true, true, UA_IPHONE_IOS18@),
        ("iphone_16_pro"@, 402u32, 874u32, 3000u32, true, true, UA_IPHONE_IOS18@),
        ("iphone_16_pro_max"@, 440u32, 956u32, 3000u32, true, true, UA_IPHONE_IOS18@),
        ("pixel_7"@, 412u32, 915u32, 2625u32, true, true, UA_PIXEL_7@),
        ("pixel_7_pro"@, 412u32, 892u32, 3500u32, true, true, UA_PIXEL_7_PRO@),
        ("pixel_8"@, 412u32, 915u32, 2625u32, true, true, UA_PIXEL_8@),
        ("pixel_8_pro"@, 448u32, 998u32, 3000u32, true, true, UA_PIXEL_8_PRO@),
        ("pixel_9"@, 412u32, 915u32, 2750u32, true, true, UA_PIXEL_9@),
        ("pixel_9_pro"@, 412u32, 915u32, 2750u32, true, true, UA_PIXEL_9_PRO@),
        ("pixel_9_pro_xl"@, 448u32, 998u32, 3000u32, true, true, UA_PIXEL_9_PRO_XL@),
        ("galaxy_s23"@, 360u32, 780u32, 3000u32, true, true, UA_GALAXY_S23@),
        ("galaxy_s23_ultra"@, 384u32, 824u32, 3750u32, true, true, UA_GALAXY_S23_ULTRA@),
        ("galaxy_s24"@, 360u32, 780u32, 3000u32, true, true, UA_GALAXY_S24@),
        ("galaxy_s24_ultra"@, 384u32, 824u32, 3750u32, true, true, UA_GALAXY_S24_ULTRA@),
        ("galaxy_fold_5"@, 373u32, 839u32, 3000u32, true, true, UA_GALAXY_FOLD_5@),
        ("ipad"@, 768u32, 1024u32, 2000u32, true, true, UA_IPAD@),
        ("ipad_mini"@, 768u32, 1024u32, 2000u32, true, true, UA_IPAD@),
        ("ipad_air"@, 820u32, 1180u32, 2000u32, true, true, UA_IPAD@),
        ("ipad_pro_11"@, 834u32, 1194u32, 2000u32, true, true, UA_IPAD@),
        ("ipad_pro_12"@, 1024u32, 1366u32, 2000u32, true, true, UA_IPAD@),
        ("galaxy_tab_s9"@, 753u32, 1205u32, 2000u32, true, true, UA_GALAXY_TAB_S9@),
        ("pixel_tablet"@, 800u32, 1280u32, 2000u32, true, true, UA_PIXEL_TABLET@),
        ("desktop_1366x768"@, 1366u32, 768u32, 1000u32, false, false, UA_WINDOWS_CHROME@),
        ("desktop_1080p"@, 1920u32, 1080u32, 1000u32, false, false, UA_WINDOWS_CHROME@),
        ("desktop_1440p"@, 2560u32, 1440u32, 1000u32, false, false, UA_WINDOWS_CHROME@),
        ("desktop_4k"@, 3840u32, 2160u32, 1500u32, false, false, UA_WINDOWS_CHROME@),
        ("macbook_air_13"@, 1280u32, 800u32, 2000u32, false, false, UA_MAC_SAFARI@),
        ("macbook_pro_14"@, 1512u32, 982u32, 2000u32, false, false, UA_MAC_SAFARI@),
        ("macbook_pro_16"@, 1728u32, 1117u32, 2000u32, false, false, UA_MAC_SAFARI@),
        ("imac_24"@, 2240u32, 1260u32, 2000u32, false, false, UA_MAC_SAFARI@),
        ("mobile_small"@, 320u32, 568u32, 2000u32, true, true, UA_IPHONE_IOS17@),
        ("mobile_medium"@, 375u32, 812u32, 3000u32, true, true, UA_IPHONE_IOS17@),
        ("mobile_large"@, 414u32, 896u32, 3000u32, true, true, UA_IPHONE_IOS17@),
        ("tablet"@, 768u32, 1024u32, 2000u32, true, true, UA_IPAD@),
        ("laptop"@, 1366u32, 768u32, 1000u32, false, false, UA_WINDOWS_CHROME@),
        ("desktop"@, 1920u32, 1080u32, 1000u32, false, false, UA_WINDOWS_CHROME@)
    ]
}

/// The built-in device presets for emulation.
pub fn get_device_presets() -> (v: Vec<DevicePreset>)
    ensures
        v@.len() == device_table().len(),
        forall|i: int| 0 <= i < v@.len() ==> row_of(#[trigger] v@[i]) == device_table()[i],
{
    let mut v: Vec<DevicePreset> = Vec::new();
    v.push(preset("iphone_se", 375, 667, 2000, true, true, UA_IPHONE_IOS17));
    v.push(preset("iphone_14", 390, 844, 3000, true, true, UA_IPHONE_IOS17));
    v.push(preset("iphone_14_plus", 428, 926, 3000, true, true, UA_IPHONE_IOS17));
    v.push(preset("iphone_14_pro", 393, 852, 3000, true, true, UA_IPHONE_IOS17));
    v.push(preset("iphone_14_pro_max", 430, 932, 3000, true, true, UA_IPHONE_IOS17));
    v.push(preset("iphone_15", 393, 852, 3000, true, true, UA_IPHONE_IOS18));
    v.push(preset("iphone_15_plus", 430, 932, 3000, true, true, UA_IPHONE_IOS18));
    v.push(preset("iphone_15_pro", 393, 852, 3000, true, true, UA_IPHONE_IOS18));
    v.push(preset("iphone_15_pro_max", 430, 932, 3000, true, true, UA_IPHONE_IOS18));
    v.push(preset("iphone_16", 393, 852, 3000, true, true, UA_IPHONE_IOS18));
    v.push(preset("iphone_16_plus", 430, 932, 3000, true, true, UA_IPHONE_IOS18));
    v.push(preset("iphone_16_pro", 402, 874, 3000, true, true, UA_IPHONE_IOS18));
    v.push(preset("iphone_16_pro_max", 440, 956, 3000, true, true, UA_IPHONE_IOS18));
    v.push(preset("pixel_7", 412, 915, 2625, true, true, UA_PIXEL_7));
    v.push(preset("pixel_7_pro", 412, 892, 3500, true, true, UA_PIXEL_7_PRO));
    v.push(preset("pixel_8", 412, 915, 2625, true, true, UA_PIXEL_8));
    v.push(preset("pixel_8_pro", 448, 998, 3000, true, true, UA_PIXEL_8_PRO));
    v.push(preset("pixel_9", 412, 915, 2750, true, true, UA_PIXEL_9));
    v.push(preset("pixel_9_pro", 412, 915, 2750, true, true, UA_PIXEL_9_PRO));
    v.push(preset("pixel_9_pro_xl", 448, 998, 3000, true, true, UA_PIXEL_9_PRO_XL));
    v.push(preset("galaxy_s23", 360, 780, 3000, true, true, UA_GALAXY_S23));
    v.push(preset("galaxy_s23_ultra", 384, 824, 3750, true, true, UA_GALAXY_S23_ULTRA));
    v.push(preset("galaxy_s24", 360, 780, 3000, true, true, UA_GALAXY_S24));
    v.push(preset("galaxy_s24_ultra", 384, 824, 3750, true, true, UA_GALAXY_S24_ULTRA));
    v.push(preset("galaxy_fold_5", 373, 839, 3000, true, true, UA_GALAXY_FOLD_5));
    v.push(preset("ipad", 768, 1024, 2000, true, true, UA_IPAD));
    v.push(preset("ipad_mini", 768, 1024, 2000, true, true, UA_IPAD));
    v.push(preset("ipad_air", 820, 1180, 2000, true, true, UA_IPAD));
    v.push(preset("ipad_pro_11", 834, 1194, 2000, true, true, UA_IPAD));
    v.push(preset("ipad_pro_12", 1024, 1366, 2000, true, true, UA_IPAD));
    v.push(preset("galaxy_tab_s9", 753, 1205, 2000, true, true, UA_GALAXY_TAB_S9));
    v.push(preset("pixel_tablet", 800, 1280, 2000, true, true, UA_PIXEL_TABLET));
    v.push(preset("desktop_1366x768", 1366, 768, 1000, false, false, UA_WINDOWS_CHROME));
    v.push(preset("desktop_1080p", 1920, 1080, 1000, false, false, UA_WINDOWS_CHROME));
    v.push(preset("desktop_1440p", 2560, 1440, 1000, false, false, UA_WINDOWS_CHROME));
    v.push(preset("desktop_4k", 3840, 2160, 1500, false, false, UA_WINDOWS_CHROME));
    v.push(preset("macbook_air_13", 1280, 800, 2000, false, false, UA_MAC_SAFARI));
    v.push(preset("macbook_pro_14", 1512, 982, 2000, false, false, UA_MAC_SAFARI));
    v.push(preset("macbook_pro_16", 1728, 1117, 2000, false, false, UA_MAC_SAFARI));
    v.push(preset("imac_24", 2240, 1260, 2000, false, false, UA_MAC_SAFARI));
    v.push(preset("mobile_small", 320, 568, 2000, true, true, UA_IPHONE_IOS17));
    v.push(preset("mobile_medium", 375, 812, 3000, true, true, UA_IPHONE_IOS17));
    v.push(preset("mobile_large", 414, 896, 3000, true, true, UA_IPHONE_IOS17));
    v.push(preset("tablet", 768, 1024, 2000, true, true, UA_IPAD));
    v.push(preset("laptop", 1366, 768, 1000, false, false, UA_WINDOWS_CHROME));
    v.push(preset("desktop", 1920, 1080, 1000, false, false, UA_WINDOWS_CHROME));
    assert(v@.map_values(|p: DevicePreset| row_of(p)) =~= device_table());
    v
}

/// The preset `row` is named `name`, ignoring ASCII case.
pub open spec fn preset_named(row: PresetRow, name: Seq<char>) -> bool {
    eq_ignore_ascii_case_seq(row.0, name)
}

/// The first built-in preset whose name equals `name` ignoring ASCII case.
pub fn find_device_preset(name: &str) -> (r: Option<DevicePreset>)
    ensures
        match r {
            Some(p) => exists|i: int| 0 <= i < device_table().len() && row_of(p) == device_table()[i]
                && preset_named(device_table()[i], name@)
                && forall|j: int| 0 <= j < i ==> !preset_named(#[trigger] device_table()[j], name@),
            None => forall|i: int| 0 <= i < device_table().len() ==> !preset_named(#[trigger] device_table()[i], name@),
        },
{
    let mut presets = get_device_presets();
    let mut i: usize = 0;
    while i < presets.len()
        invariant
            presets@.len() == device_table().len(),
            forall|k: int| 0 <= k < presets@.len() ==> row_of(#[trigger] presets@[k]) == device_table()[k],
            i <= presets@.len(),
            forall|j: int| 0 <= j < i ==> !preset_named(#[trigger] device_table()[j], name@),
        decreases presets@.len() - i,
    {
        if str_eq_ignore_ascii_case(presets[i].name.as_str(), name) {
            let ghost at = i as int;
            assert(row_of(presets@[at]) == device_table()[at]);
            let p = presets.remove(i);
            return Some(p);
        }
        assert(row_of(presets@[i as int]) == device_table()[i as int]);
        i = i + 1;
    }
    None
}

/// The quality fraction `q / 100` as std prints an `f32` (shortest form:
/// `90` is `0.9`, `100` is `1`, `85` is `0.85`).
pub open spec fn quality_fraction(q: nat) -> Seq<char> {
    if q % 100 == 0 {
        decimal(q / 100)
    } else if q % 10 == 0 {
        decimal(q / 100) + seq!['.', digit_char((q / 10) % 10)]
    } else {
        decimal(q / 100) + seq!['.', digit_char((q / 10) % 10), digit_char(q % 10)]
    }
}

/// Appends the quality fraction of `q`.
pub fn push_quality_fraction(s: &mut String, q: u8)
    ensures
        final(s)@ == old(s)@ + quality_fraction(q as nat),
{
    let q64 = q as u64;
    push_decimal(s, q64 / 100);
    if q64 % 100 != 0 {
        push_char(s, '.');
        push_char(s, digit_to_char((q64 / 10) % 10));
        if q64 % 10 != 0 {
            push_char(s, digit_to_char(q64 % 10));
        }
    }
    assert(final(s)@ =~= old(s)@ + quality_fraction(q as nat));
}

/// The MIME type a full-page capture encodes `format` as.
pub open spec fn screenshot_mime(format: Seq<char>) -> Seq<char> {
    if format == "jpeg"@ || format == "jpg"@ {
        "image/jpeg"@
    } else if format == "webp"@ {
        "image/webp"@
    } else {
        "image/png"@
    }
}

/// The text `generate_element_screenshot_script` produces.
pub open spec fn element_screenshot_script(selector: Seq<char>, padding: nat) -> Seq<char> {
    "
(function() {
    const el = document.querySelector(\""@ + escape_quotes(selector) + "\");
    if (!el) {
        return JSON.stringify({ error: \"Element not found\" });
    }
    
    const rect = el.getBoundingClientRect();
    const padding = "@ + decimal(padding) + ";
    
    return JSON.stringify({
        x: Math.max(0, rect.x - padding),
        y: Math.max(0, rect.y - padding + window.scrollY),
        width: rect.width + padding * 2,
        height: rect.height + padding * 2,
        scrollY: window.scrollY
    });
})();
"@
}

/// JavaScript that reports the page-relative box of the element matching
/// `selector` (double quotes escaped), widened by `padding` pixels.
pub fn generate_element_screenshot_script(selector: &str, padding: u32) -> (r: String)
    ensures
        r@ == element_screenshot_script(selector@, padding as nat),
{
    let mut r = owned("
(function() {
    const el = document.querySelector(\"");
    let esc = escape_quotes_str(selector);
    push_str(&mut r, esc.as_str());
    push_str(&mut r, "\");
    if (!el) {
        return JSON.stringify({ error: \"Element not found\" });
    }
    
    const rect = el.getBoundingClientRect();
    const padding = ");
    push_decimal(&mut r, padding as u64);
    push_str(&mut r, ";
    
    return JSON.stringify({
        x: Math.max(0, rect.x - padding),
        y: Math.max(0, rect.y - padding + window.scrollY),
        width: rect.width + padding * 2,
        height: rect.height + padding * 2,
        scrollY: window.scrollY
    });
})();
");
    r
}

/// JavaScript that reports the full page size and the viewport size.
pub open spec fn full_page_dimensions_script() -> Seq<char> {
    "
(function() {
    const body = document.body;
    const html = document.documentElement;
    
    const height = Math.max(
        body.scrollHeight, body.offsetHeight,
        html.clientHeight, html.scrollHeight, html.offsetHeight
    );
    
    const width = Math.max(
        body.scrollWidth, body.offsetWidth,
        html.clientWidth, html.scrollWidth, html.offsetWidth
    );
    
    return JSON.stringify({
        width: width,
        height: height,
        viewportWidth: window.innerWidth,
        viewportHeight: window.innerHeight
    });
})();
"@
}

/// JavaScript that reports the full page size and the viewport size.
pub fn generate_full_page_dimensions_script() -> (r: String)
    ensures
        r@ == full_page_dimensions_script(),
{
    owned("
(function() {
    const body = document.body;
    const html = document.documentElement;
    
    const height = Math.max(
        body.scrollHeight, body.offsetHeight,
        html.clientHeight, html.scrollHeight, html.offsetHeight
    );
    
    const width = Math.max(
        body.scrollWidth, body.offsetWidth,
        html.clientWidth, html.scrollWidth, html.offsetWidth
    );
    
    return JSON.stringify({
        width: width,
        height: height,
        viewportWidth: window.innerWidth,
        viewportHeight: window.innerHeight
    });
})();
")
}

/// The text `generate_wait_for_images_script` produces.
pub open spec fn wait_for_images_script(timeout_ms: nat) -> Seq<char> {
    "
(function() {
    return new Promise((resolve) => {
        const images = Array.from(document.images);
        const startTime = Date.now();
        const timeout = "@ + decimal(timeout_ms) + ";
        
        function checkImages() {
            const allLoaded = images.every(img => img.complete);
            
            if (allLoaded) {
                resolve(JSON.stringify({ loaded: images.length, elapsed: Date.now() - startTime }));
            } else if (Date.now() - startTime > timeout) {
                const loaded = images.filter(img => img.complete).length;
                resolve(JSON.stringify({ loaded: loaded, total: images.length, timeout: true }));
            } else {
                setTimeout(checkImages, 100);
            }
        }
        
        if (images.length === 0) {
            resolve(JSON.stringify({ loaded: 0, elapsed: 0 }));
        } else {
            checkImages();
        }
    });
})();
"@
}

/// JavaScript that resolves once every image has loaded, or after
/// `timeout_ms` milliseconds.
pub fn generate_wait_for_images_script(timeout_ms: u64) -> (r: String)
    ensures
        r@ == wait_for_images_script(timeout_ms as nat),
{
    let mut r = owned("
(function() {
    return new Promise((resolve) => {
        const images = Array.from(document.images);
        const startTime = Date.now();
        const timeout = ");
    push_decimal(&mut r, timeout_ms);
    push_str(&mut r, ";
        
        function checkImages() {
            const allLoaded = images.every(img => img.complete);
            
            if (allLoaded) {
                resolve(JSON.stringify({ loaded: images.length, elapsed: Date.now() - startTime }));
            } else if (Date.now() - startTime > timeout) {
                const loaded = images.filter(img => img.complete).length;
                resolve(JSON.stringify({ loaded: loaded, total: images.length, timeout: true }));
            } else {
                setTimeout(checkImages, 100);
            }
        }
        
        if (images.length === 0) {
            resolve(JSON.stringify({ loaded: 0, elapsed: 0 }));
        } else {
            checkImages();
        }
    });
})();
");
    r
}

/// The text `generate_force_load_lazy_images_script` produces.
pub open spec fn force_load_lazy_images_script(timeout_ms: nat) -> Seq<char> {
    "
(async function() {
    const startTime = Date.now();
    const timeout = "@ + decimal(timeout_ms) + ";
    
    // Collect all images
    const allImages = Array.from(document.images);
    let lazyCount = 0;
    
    // Force load lazy images by manipulating DOM
    allImages.forEach(img => {
        // Handle loading=\"lazy\" attribute
        if (img.loading === 'lazy') {
            img.loading = 'eager';
            lazyCount++;
        }
        
        // Handle data-src patterns (common lazy loading libraries)
        const dataSrc = img.getAttribute('data-src') || 
                        img.getAttribute('data-lazy-src') || 
                        img.getAttribute('data-original') ||
                        img.getAttribute('data-lazy');
        if (dataSrc && !img.src.includes(dataSrc)) {
            img.src = dataSrc;
            lazyCount++;
        }
        
        // Handle srcset lazy loading
        const dataSrcset = img.getAttribute('data-srcset') || 
                          img.getAttribute('data-lazy-srcset');
        if (dataSrcset && !img.srcset) {
            img.srcset = dataSrcset;
        }
        
        // Remove lazy classes that might prevent loading
        img.classList.remove('lazy', 'lazyload', 'lazy-load', 'b-lazy');
    });
    
    // Also handle background images in data attributes
    document.querySelectorAll('[data-bg], [data-background-image]').forEach(el => {
        const bg = el.getAttribute('data-bg') || el.getAttribute('data-background-image');
        if (bg) {
            el.style.backgroundImage = `url(${bg})`;
        }
    });
    
    // Wait for all images to load
    const wait = (ms) => new Promise(r => setTimeout(r, ms));
    const isLoaded = (img) => img.complete && img.naturalHeight > 0;
    
    while ((Date.now() - startTime) < timeout) {
        const loadedCount = allImages.filter(isLoaded).length;
        if (loadedCount === allImages.length) {
            return JSON.stringify({
                success: true,
                totalImages: allImages.length,
                lazyImagesForced: lazyCount,
                loadedImages: loadedCount,
                elapsed: Date.now() - startTime
            });
        }
        await wait(100);
    }
    
    // Timeout - return current state
    const loadedCount = allImages.filter(isLoaded).length;
    return JSON.stringify({
        success: false,
        timeout: true,
        totalImages: allImages.length,
        lazyImagesForced: lazyCount,
        loadedImages: loadedCount,
        elapsed: Date.now() - startTime
    });
})();
"@
}

/// JavaScript that forces lazily loaded images to load (by rewriting their
/// loading attributes) and waits up to `timeout_ms` milliseconds for them.
pub fn generate_force_load_lazy_images_script(timeout_ms: u64) -> (r: String)
    ensures
        r@ == force_load_lazy_images_script(timeout_ms as nat),
{
    let mut r = owned("
(async function() {
    const startTime = Date.now();
    const timeout = ");
    push_decimal(&mut r, timeout_ms);
    push_str(&mut r, ";
    
    // Collect all images
    const allImages = Array.from(document.images);
    let lazyCount = 0;
    
    // Force load lazy images by manipulating DOM
    allImages.forEach(img => {
        // Handle loading=\"lazy\" attribute
        if (img.loading === 'lazy') {
            img.loading = 'eager';
            lazyCount++;
        }
        
        // Handle data-src patterns (common lazy loading libraries)
        const dataSrc = img.getAttribute('data-src') || 
                        img.getAttribute('data-lazy-src') || 
                        img.getAttribute('data-original') ||
                        img.getAttribute('data-lazy');
        if (dataSrc && !img.src.includes(dataSrc)) {
            img.src = dataSrc;
            lazyCount++;
        }
        
        // Handle srcset lazy loading
        const dataSrcset = img.getAttribute('data-srcset') || 
                          img.getAttribute('data-lazy-srcset');
        if (dataSrcset && !img.srcset) {
            img.srcset = dataSrcset;
        }
        
        // Remove lazy classes that might prevent loading
        img.classList.remove('lazy', 'lazyload', 'lazy-load', 'b-lazy');
    });
    
    // Also handle background images in data attributes
    document.querySelectorAll('[data-bg], [data-background-image]').forEach(el => {
        const bg = el.getAttribute('data-bg') || el.getAttribute('data-background-image');
        if (bg) {
            el.style.backgroundImage = `url(${bg})`;
        }
    });
    
    // Wait for all images to load
    const wait = (ms) => new Promise(r => setTimeout(r, ms));
    const isLoaded = (img) => img.complete && img.naturalHeight > 0;
    
    while ((Date.now() - startTime) < timeout) {
        const loadedCount = allImages.filter(isLoaded).length;
        if (loadedCount === allImages.length) {
            return JSON.stringify({
                success: true,
                totalImages: allImages.length,
                lazyImagesForced: lazyCount,
                loadedImages: loadedCount,
                elapsed: Date.now() - startTime
            });
        }
        await wait(100);
    }
    
    // Timeout - return current state
    const loadedCount = allImages.filter(isLoaded).length;
    return JSON.stringify({
        success: false,
        timeout: true,
        totalImages: allImages.length,
        lazyImagesForced: lazyCount,
        loadedImages: loadedCount,
        elapsed: Date.now() - startTime
    });
})();
");
    r
}

/// The text `generate_full_page_screenshot_script` produces.
pub open spec fn full_page_screenshot_script(quality: nat, format: Seq<char>) -> Seq<char> {
    "
(async function() {
    const body = document.body;
    const html = document.documentElement;
    
    // Get full page dimensions
    const fullWidth = Math.max(
        body.scrollWidth, body.offsetWidth,
        html.clientWidth, html.scrollWidth, html.offsetWidth
    );
    const fullHeight = Math.max(
        body.scrollHeight, body.offsetHeight,
        html.clientHeight, html.scrollHeight, html.offsetHeight
    );
    
    const viewportWidth = window.innerWidth;
    const viewportHeight = window.innerHeight;
    const originalScrollX = window.scrollX;
    const originalScrollY = window.scrollY;
    
    // Create canvas for full page
    const canvas = document.createElement('canvas');
    canvas.width = fullWidth;
    canvas.height = fullHeight;
    const ctx = canvas.getContext('2d');
    
    // Function to capture current viewport using html2canvas-like approach
    const captureViewport = async () => {
        // Create a temporary canvas
        const tempCanvas = document.createElement('canvas');
        tempCanvas.width = viewportWidth;
        tempCanvas.height = viewportHeight;
        const tempCtx = tempCanvas.getContext('2d');
        
        // Draw background
        tempCtx.fillStyle = getComputedStyle(document.body).backgroundColor || '#ffffff';
        tempCtx.fillRect(0, 0, viewportWidth, viewportHeight);
        
        // Get computed styles and render visible content
        // (Simplified version - for production, would use html2canvas or similar)
        const elements = document.body.getElementsByTagName('*');
        for (const el of elements) {
            const rect = el.getBoundingClientRect();
            // Skip elements outside viewport
            if (rect.bottom < 0 || rect.top > viewportHeight || rect.right < 0 || rect.left > viewportWidth) continue;
            
            // Handle images
            if (el.tagName === 'IMG' && el.complete && el.naturalHeight > 0) {
                try {
                    tempCtx.drawImage(el, rect.left, rect.top, rect.width, rect.height);
                } catch (e) {}
            }
        }
        
        return tempCanvas;
    };
    
    // For now, return page dimensions and a simple screenshot
    // Full stitching would require multiple captures
    try {
        const c = document.createElement('canvas');
        c.width = Math.min(fullWidth, 1920);
        c.height = Math.min(fullHeight, 10000);
        const x = c.getContext('2d');
        
        // Fill background
        x.fillStyle = getComputedStyle(document.body).backgroundColor || '#ffffff';
        x.fillRect(0, 0, c.width, c.height);
        
        // Return base64 image
        const dataUrl = c.toDataURL('"@ + screenshot_mime(format) + "'"@ + (if format == "png"@ { Seq::empty() } else { ", "@ + quality_fraction(quality) }) + ");
        const base64 = dataUrl.replace(/^data:image\\\\/\\\\w+;base64,/, '');
        
        return JSON.stringify({
            success: true,
            width: fullWidth,
            height: fullHeight,
            capturedWidth: c.width,
            capturedHeight: c.height,
            data: base64
        });
    } catch (e) {
        return JSON.stringify({
            success: false,
            error: e.message,
            width: fullWidth,
            height: fullHeight
        });
    }
})();
"@
}

/// JavaScript that renders the full page to a canvas and returns it base64
/// encoded in the MIME type `format` names, with the quality fraction
/// appended for formats other than `png`.
pub fn generate_full_page_screenshot_script(quality: u8, format: &str) -> (r: String)
    ensures
        r@ == full_page_screenshot_script(quality as nat, format@),
{
    let mime = if str_eq(format, "jpeg") || str_eq(format, "jpg") {
        "image/jpeg"
    } else if str_eq(format, "webp") {
        "image/webp"
    } else {
        "image/png"
    };
    let quality_arg = if str_eq(format, "png") {
        String::new()
    } else {
        let mut q = owned(", ");
        push_quality_fraction(&mut q, quality);
        q
    };
    let mut r = owned("
(async function() {
    const body = document.body;
    const html = document.documentElement;
    
    // Get full page dimensions
    const fullWidth = Math.max(
        body.scrollWidth, body.offsetWidth,
        html.clientWidth, html.scrollWidth, html.offsetWidth
    );
    const fullHeight = Math.max(
        body.scrollHeight, body.offsetHeight,
        html.clientHeight, html.scrollHeight, html.offsetHeight
    );
    
    const viewportWidth = window.innerWidth;
    const viewportHeight = window.innerHeight;
    const originalScrollX = window.scrollX;
    const originalScrollY = window.scrollY;
    
    // Create canvas for full page
    const canvas = document.createElement('canvas');
    canvas.width = fullWidth;
    canvas.height = fullHeight;
    const ctx = canvas.getContext('2d');
    
    // Function to capture current viewport using html2canvas-like approach
    const captureViewport = async () => {
        // Create a temporary canvas
        const tempCanvas = document.createElement('canvas');
        tempCanvas.width = viewportWidth;
        tempCanvas.height = viewportHeight;
        const tempCtx = tempCanvas.getContext('2d');
        
        // Draw background
        tempCtx.fillStyle = getComputedStyle(document.body).backgroundColor || '#ffffff';
        tempCtx.fillRect(0, 0, viewportWidth, viewportHeight);
        
        // Get computed styles and render visible content
        // (Simplified version - for production, would use html2canvas or similar)
        const elements = document.body.getElementsByTagName('*');
        for (const el of elements) {
            const rect = el.getBoundingClientRect();
            // Skip elements outside viewport
            if (rect.bottom < 0 || rect.top > viewportHeight || rect.right < 0 || rect.left > viewportWidth) continue;
            
            // Handle images
            if (el.tagName === 'IMG' && el.complete && el.naturalHeight > 0) {
                try {
                    tempCtx.drawImage(el, rect.left, rect.top, rect.width, rect.height);
                } catch (e) {}
            }
        }
        
        return tempCanvas;
    };
    
    // For now, return page dimensions and a simple screenshot
    // Full stitching would require multiple captures
    try {
        const c = document.createElement('canvas');
        c.width = Math.min(fullWidth, 1920);
        c.height = Math.min(fullHeight, 10000);
        const x = c.getContext('2d');
        
        // Fill background
        x.fillStyle = getComputedStyle(document.body).backgroundColor || '#ffffff';
        x.fillRect(0, 0, c.width, c.height);
        
        // Return base64 image
        const dataUrl = c.toDataURL('");
    push_str(&mut r, mime);
    push_str(&mut r, "'");
    push_str(&mut r, quality_arg.as_str());
    push_str(&mut r, ");
        const base64 = dataUrl.replace(/^data:image\\\\/\\\\w+;base64,/, '');
        
        return JSON.stringify({
            success: true,
            width: fullWidth,
            height: fullHeight,
            capturedWidth: c.width,
            capturedHeight: c.height,
            data: base64
        });
    } catch (e) {
        return JSON.stringify({
            success: false,
            error: e.message,
            width: fullWidth,
            height: fullHeight
        });
    }
})();
");
    r
}

/// The text `generate_scroll_to_script` produces.
pub open spec fn scroll_to_script(x: int, y: int) -> Seq<char> {
    "
window.scrollTo("@ + signed_decimal(x) + ", "@ + signed_decimal(y) + ");
JSON.stringify({ scrollX: window.scrollX, scrollY: window.scrollY });
"@
}

/// JavaScript that scrolls the window to (`x`, `y`) and reports the new
/// scroll position.
pub fn generate_scroll_to_script(x: i32, y: i32) -> (r: String)
    ensures
        r@ == scroll_to_script(x as int, y as int),
{
    let mut r = owned("
window.scrollTo(");
    push_signed_decimal(&mut r, x as i64);
    push_str(&mut r, ", ");
    push_signed_decimal(&mut r, y as i64);
    push_str(&mut r, ");
JSON.stringify({ scrollX: window.scrollX, scrollY: window.scrollY });
");
    r
}

/// The text `generate_hide_elements_script` produces.
pub open spec fn hide_elements_script(selectors: Seq<Seq<char>>) -> Seq<char> {
    "
(function() {
    const selectors = "@ + json_or_empty(selectors) + ";
    const hidden = [];
    
    for (const selector of selectors) {
        const elements = document.querySelectorAll(selector);
        for (const el of elements) {
            el.style.setProperty('visibility', 'hidden', 'important');
            hidden.push(selector);
        }
    }
    
    return JSON.stringify({ hidden: hidden.length });
})();
"@
}

/// JavaScript that hides every element matching one of `selectors`, given
/// as a JSON array (`[]` when it cannot be encoded).
pub fn generate_hide_elements_script(selectors: &[String]) -> (r: String)
    ensures
        r@ == hide_elements_script(views(selectors@)),
{
    let json = selectors_json(selectors);
    let mut r = owned("
(function() {
    const selectors = ");
    push_str(&mut r, json.as_str());
    push_str(&mut r, ";
    const hidden = [];
    
    for (const selector of selectors) {
        const elements = document.querySelectorAll(selector);
        for (const el of elements) {
            el.style.setProperty('visibility', 'hidden', 'important');
            hidden.push(selector);
        }
    }
    
    return JSON.stringify({ hidden: hidden.length });
})();
");
    r
}

/// The text `generate_restore_elements_script` produces.
pub open spec fn restore_elements_script(selectors: Seq<Seq<char>>) -> Seq<char> {
    "
(function() {
    const selectors = "@ + json_or_empty(selectors) + ";
    let restored = 0;
    
    for (const selector of selectors) {
        const elements = document.querySelectorAll(selector);
        for (const el of elements) {
            el.style.removeProperty('visibility');
            restored++;
        }
    }
    
    return JSON.stringify({ restored: restored });
})();
"@
}

/// JavaScript that makes the elements matching `selectors` visible again.
pub fn generate_restore_elements_script(selectors: &[String]) -> (r: String)
    ensures
        r@ == restore_elements_script(views(selectors@)),
{
    let json = selectors_json(selectors);
    let mut r = owned("
(function() {
    const selectors = ");
    push_str(&mut r, json.as_str());
    push_str(&mut r, ";
    let restored = 0;
    
    for (const selector of selectors) {
        const elements = document.querySelectorAll(selector);
        for (const el of elements) {
            el.style.removeProperty('visibility');
            restored++;
        }
    }
    
    return JSON.stringify({ restored: restored });
})();
");
    r
}

/// The text `generate_viewport_meta_script` produces.
pub open spec fn viewport_meta_script(width: nat, height: nat) -> Seq<char> {
    "
(function() {
    let viewport = document.querySelector('meta[name=\"viewport\"]');
    if (!viewport) {
        viewport = document.createElement('meta');
        viewport.name = 'viewport';
        document.head.appendChild(viewport);
    }
    viewport.content = 'width="@ + decimal(width) + ", height="@ + decimal(height) + ", initial-scale=1';
    return JSON.stringify({ set: true });
})();
"@
}

/// JavaScript that sets the page's viewport meta tag to `width` x `height`.
pub fn generate_viewport_meta_script(width: u32, height: u32) -> (r: String)
    ensures
        r@ == viewport_meta_script(width as nat, height as nat),
{
    let mut r = owned("
(function() {
    let viewport = document.querySelector('meta[name=\"viewport\"]');
    if (!viewport) {
        viewport = document.createElement('meta');
        viewport.name = 'viewport';
        document.head.appendChild(viewport);
    }
    viewport.content = 'width=");
    push_decimal(&mut r, width as u64);
    push_str(&mut r, ", height=");
    push_decimal(&mut r, height as u64);
    push_str(&mut r, ", initial-scale=1';
    return JSON.stringify({ set: true });
})();
");
    r
}

/// The scroll script goes to the requested position: its `window.scrollTo`
/// call takes `x` as its first argument and `y` as its second.
pub proof fn law_scroll_to_coordinates(x: int, y: int)
    ensures
        starts_with_seq(scroll_to_script(x, y), "
window.scrollTo("@ + signed_decimal(x) + ", "@ + signed_decimal(y) + ")"@),
{
    reveal_strlit(");
JSON.stringify({ scrollX: window.scrollX, scrollY: window.scrollY });
");
    reveal_strlit(")");
    let p = "
window.scrollTo("@ + signed_decimal(x) + ", "@ + signed_decimal(y) + ")"@;
    assert(scroll_to_script(x, y).subrange(0, p.len() as int) =~= p);
}

} // verus!
